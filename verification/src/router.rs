//! The command router: one invocation selects at most one operation, and
//! the router turns it into a route, a transmission mode carrying exactly
//! that operation's fields, and the payload shape expected in the reply.

use crate::params::{lemma_map_of_contains, map_of, ParameterMap};
use crate::request::{prepare, Mode, PreparedRequest};
use vstd::prelude::*;

verus! {

/// The parsed invocation: a server base address and at most one operation.
pub struct Cli {
    pub addr: String,
    pub command: Option<Commands>,
}

/// The four operations the client offers. All fields are taken verbatim
/// from the invocation; `name` is the one optional field.
pub enum Commands {
    Publish { tag: String, name: Option<String>, message: String },
    Subscribe { tag: String, email: String },
    Unsubscribe { tag: String, email: String, verification_code: String },
    SendVerificationCode { email: String },
}

/// Which structured shape the reply's payload is decoded as. Operations
/// whose reply shape the client does not assume print the raw body.
#[derive(Clone, Copy, Debug, PartialEq, Eq)]
pub enum PayloadShape {
    Event,
    Subscriber,
    Opaque,
}

/// Everything one operation contributes to its single HTTP call.
pub struct Plan {
    pub route: String,
    pub mode: Mode,
    pub shape: PayloadShape,
}

/// The route each operation is sent to.
pub open spec fn spec_route(c: Commands) -> Seq<char> {
    match c {
        Commands::Publish { .. } => "/publish"@,
        Commands::Subscribe { .. } => "/subscribe"@,
        Commands::Unsubscribe { .. } => "/unsubscribe"@,
        Commands::SendVerificationCode { .. } => "/sendVerificationCode"@,
    }
}

/// Whether the operation travels as a JSON-body POST; the one exception,
/// requesting a verification code, travels as a query-string GET.
pub open spec fn spec_is_post(c: Commands) -> bool {
    !(c matches Commands::SendVerificationCode { .. })
}

/// The payload shape expected in each operation's reply.
pub open spec fn spec_shape(c: Commands) -> PayloadShape {
    match c {
        Commands::Publish { .. } => PayloadShape::Event,
        Commands::Subscribe { .. } => PayloadShape::Subscriber,
        Commands::Unsubscribe { .. } => PayloadShape::Opaque,
        Commands::SendVerificationCode { .. } => PayloadShape::Opaque,
    }
}

/// The parameter entries each operation carries: exactly its fields, under
/// the server's field names; `name` only when it was supplied.
pub open spec fn spec_params(c: Commands) -> Seq<(Seq<char>, Seq<char>)> {
    match c {
        Commands::Publish { tag, name: Some(name), message } => seq![
            ("tag"@, tag@),
            ("name"@, name@),
            ("message"@, message@),
        ],
        Commands::Publish { tag, name: None, message } => seq![
            ("tag"@, tag@),
            ("message"@, message@),
        ],
        Commands::Subscribe { tag, email } => seq![("tag"@, tag@), ("email"@, email@)],
        Commands::Unsubscribe { tag, email, verification_code } => seq![
            ("tag"@, tag@),
            ("email"@, email@),
            ("verificationCode"@, verification_code@),
        ],
        Commands::SendVerificationCode { email } => seq![("email"@, email@)],
    }
}

/// The field names each operation's mapping is allowed to carry: its own
/// field names and no others, with `name` only when it was supplied.
pub open spec fn spec_param_keys(c: Commands) -> Set<Seq<char>> {
    match c {
        Commands::Publish { name: Some(_), .. } => set!["tag"@, "name"@, "message"@],
        Commands::Publish { name: None, .. } => set!["tag"@, "message"@],
        Commands::Subscribe { .. } => set!["tag"@, "email"@],
        Commands::Unsubscribe { .. } => set!["tag"@, "email"@, "verificationCode"@],
        Commands::SendVerificationCode { .. } => set!["email"@],
    }
}

/// For every operation, the parameter mapping the router builds holds
/// exactly that operation's field names, with no extras; in particular the
/// optional `name` stands in the Publish mapping if and only if it was
/// supplied.
pub proof fn lemma_params_exact_keys(c: Commands)
    ensures
        map_of(spec_params(c)).dom() =~= spec_param_keys(c),
{
    let s = spec_params(c);
    assert forall|k: Seq<char>|
        #[trigger] map_of(s).dom().contains(k) <==> spec_param_keys(c).contains(k) by {
        lemma_map_of_contains(s, k);
        match c {
            Commands::Publish { name: Some(_), .. } => {
                assert(s.len() == 3 && s[0].0 == "tag"@ && s[1].0 == "name"@ && s[2].0
                    == "message"@);
            },
            Commands::Publish { name: None, .. } => {
                assert(s.len() == 2 && s[0].0 == "tag"@ && s[1].0 == "message"@);
            },
            Commands::Subscribe { .. } => {
                assert(s.len() == 2 && s[0].0 == "tag"@ && s[1].0 == "email"@);
            },
            Commands::Unsubscribe { .. } => {
                assert(s.len() == 3 && s[0].0 == "tag"@ && s[1].0 == "email"@ && s[2].0
                    == "verificationCode"@);
            },
            Commands::SendVerificationCode { .. } => {
                assert(s.len() == 1 && s[0].0 == "email"@);
            },
        }
    };
}

/// What the router promises of the plan it builds for an operation.
pub open spec fn plan_matches(c: Commands, p: Plan) -> bool {
    &&& p.route@ == spec_route(c)
    &&& p.shape == spec_shape(c)
    &&& match p.mode {
        Mode::Get(m) => !spec_is_post(c) && m@ == spec_params(c) && m.wf(),
        Mode::Post(m) => spec_is_post(c) && m@ == spec_params(c) && m.wf(),
    }
}

impl Cli {
    /// Routes the selected operation: picks its route, builds the parameter
    /// mapping with exactly that operation's fields, and chooses GET or
    /// POST. With no operation selected there is nothing to do.
    pub fn plan(&self) -> (r: Option<Plan>)
        ensures
            self.command is None ==> r is None,
            self.command matches Some(c) ==> r matches Some(p) && plan_matches(c, p),
    {
        proof {
            reveal_strlit("tag");
            reveal_strlit("name");
            reveal_strlit("message");
            reveal_strlit("email");
            reveal_strlit("verificationCode");
            assert("tag"@.len() == 3 && "name"@.len() == 4 && "message"@.len() == 7
                && "email"@.len() == 5 && "verificationCode"@.len() == 16);
        }
        match &self.command {
            None => None,
            Some(Commands::Publish { tag, name, message }) => {
                let mut map = ParameterMap::new();
                map.insert("tag", tag.as_str());
                if let Some(name) = name {
                    map.insert("name", name.as_str());
                }
                map.insert("message", message.as_str());
                proof {
                    assert(map@ =~= spec_params(self.command->Some_0));
                }
                Some(Plan {
                    route: "/publish".to_owned(),
                    mode: Mode::Post(map),
                    shape: PayloadShape::Event,
                })
            },
            Some(Commands::Subscribe { tag, email }) => {
                let mut map = ParameterMap::new();
                map.insert("tag", tag.as_str());
                map.insert("email", email.as_str());
                proof {
                    assert(map@ =~= spec_params(self.command->Some_0));
                }
                Some(Plan {
                    route: "/subscribe".to_owned(),
                    mode: Mode::Post(map),
                    shape: PayloadShape::Subscriber,
                })
            },
            Some(Commands::Unsubscribe { tag, email, verification_code }) => {
                let mut map = ParameterMap::new();
                map.insert("tag", tag.as_str());
                map.insert("email", email.as_str());
                map.insert("verificationCode", verification_code.as_str());
                proof {
                    assert(map@ =~= spec_params(self.command->Some_0));
                }
                Some(Plan {
                    route: "/unsubscribe".to_owned(),
                    mode: Mode::Post(map),
                    shape: PayloadShape::Opaque,
                })
            },
            Some(Commands::SendVerificationCode { email }) => {
                let mut map = ParameterMap::new();
                map.insert("email", email.as_str());
                proof {
                    assert(map@ =~= spec_params(self.command->Some_0));
                }
                Some(Plan {
                    route: "/sendVerificationCode".to_owned(),
                    mode: Mode::Get(map),
                    shape: PayloadShape::Opaque,
                })
            },
        }
    }

    /// Builds the request for a route under this invocation's server
    /// address; the compute half of sending, handed to the transport as-is.
    pub fn prepare(&self, routing: &str, mode: Mode) -> (r: PreparedRequest)
        ensures
            (match mode {
                Mode::Get(m) => r matches PreparedRequest::Get { url } && url@
                    == crate::request::get_url(self.addr@, routing@, m@),
                Mode::Post(m) => r matches PreparedRequest::Post { url, body } && url@ == self.addr@
                    + routing@ && body@ == crate::request::post_body(m@),
            }),
    {
        prepare(&self.addr, routing, mode)
    }
}

} // verus!

//! The HTTP edge of the web server that the library decides: which part of a
//! request body holds the arguments, the bodies of the fixed answers, and the
//! handling of the configured bind addresses.
use vstd::prelude::*;
use vstd::string::StringExecFns;

use crate::json::{members_seq, spec_get, JsonMembers, JsonValue};
use crate::text::{bind_address_parts, bind_parts, str_equal, texts};

verus! {

/// The HTTP status of an answered request.
pub const RPC_OK_STATUS: u16 = 200;

/// The HTTP status of a refused or failed request.
pub const RPC_ERROR_STATUS: u16 = 400;

/// The addresses served when none are configured.
pub open spec fn spec_default_bind() -> Seq<char> {
    "127.0.0.1:3001"@
}

pub fn default_bind() -> (r: &'static str)
    ensures
        r@ == spec_default_bind(),
{
    "127.0.0.1:3001"
}

/// Whether the web mode is switched on: by `CC_SWITCH_WEB` set to `1` or
/// `true`, or by the command-line argument `--web`.
pub open spec fn spec_web_mode_requested(env_value: Option<Seq<char>>, args: Seq<String>) -> bool {
    ||| env_value == Some("1"@)
    ||| env_value == Some("true"@)
    ||| exists|i: int| 0 <= i < args.len() && (#[trigger] args[i])@ == "--web"@
}

/// Whether the web mode is switched on, given the value of `CC_SWITCH_WEB`
/// (if it is set) and the command-line arguments.
pub fn web_mode_requested(env_value: Option<&str>, args: &Vec<String>) -> (r: bool)
    ensures
        r == spec_web_mode_requested(
            match env_value {
                Some(v) => Some(v@),
                None => None,
            },
            args@,
        ),
{
    if let Some(v) = env_value {
        if str_equal(v, "1") || str_equal(v, "true") {
            return true;
        }
    }
    let mut i: usize = 0;
    while i < args.len()
        invariant
            i <= args@.len(),
            forall|j: int| 0 <= j < i ==> (#[trigger] args@[j])@ != "--web"@,
        decreases args@.len() - i,
    {
        if str_equal(args[i].as_str(), "--web") {
            return true;
        }
        i = i + 1;
    }
    false
}

/// The arguments of a request: its `args` member when it has one, else the
/// whole body.
pub open spec fn spec_request_args(body: JsonValue) -> JsonValue {
    match spec_get(body, "args"@) {
        Some(a) => a,
        None => body,
    }
}

pub fn request_args(body: JsonValue) -> (r: JsonValue)
    ensures
        r == spec_request_args(body),
{
    let inner = match body.get("args") {
        Some(a) => Some(a.deep_clone()),
        None => None,
    };
    match inner {
        Some(a) => a,
        None => body,
    }
}

/// An object of one member.
pub open spec fn is_single_member(v: JsonValue, key: Seq<char>, value: JsonValue) -> bool {
    &&& v matches JsonValue::Object(m)
    &&& members_seq(m).len() == 1
    &&& members_seq(m)[0].0@ == key
    &&& members_seq(m)[0].1 == value
}

/// The body of a failed request: `{"error": <message>}`.
pub fn rpc_error_body(error: String) -> (r: JsonValue)
    ensures
        is_single_member(r, "error"@, JsonValue::Str(error)),
{
    proof {
        reveal_with_fuel(members_seq, 2);
    }
    JsonValue::Object(
        JsonMembers::Member {
            key: String::from_str("error"),
            value: Box::new(JsonValue::Str(error)),
            rest: Box::new(JsonMembers::Empty),
        },
    )
}

/// The body of the health check: `{"ok": true, "name": "cc-switch-web"}`.
pub fn health_body() -> (r: JsonValue)
    ensures
        r matches JsonValue::Object(m) && {
            let s = members_seq(m);
            &&& s.len() == 2
            &&& s[0].0@ == "ok"@
            &&& s[0].1 == JsonValue::Bool(true)
            &&& s[1].0@ == "name"@
            &&& s[1].1 matches JsonValue::Str(name) && name@ == "cc-switch-web"@
        },
{
    let r = JsonValue::Object(
        JsonMembers::Member {
            key: String::from_str("ok"),
            value: Box::new(JsonValue::Bool(true)),
            rest: Box::new(
                JsonMembers::Member {
                    key: String::from_str("name"),
                    value: Box::new(JsonValue::Str(String::from_str("cc-switch-web"))),
                    rest: Box::new(JsonMembers::Empty),
                },
            ),
        },
    );
    proof {
        reveal_with_fuel(members_seq, 3);
    }
    r
}

/// The message for a bind address that does not parse.
pub open spec fn bind_error_text(part: Seq<char>, error: Seq<char>) -> Seq<char> {
    "Invalid bind address '"@ + part + "': "@ + error
}

/// The message when the configuration names no address.
pub open spec fn no_bind_address_text() -> Seq<char> {
    "CC_SWITCH_WEB_BIND did not contain any bind address"@
}

/// Whether `parse` reads `part` as an address.
pub open spec fn parses<A, P: Fn(String) -> Result<A, String>>(parse: P, part: String) -> bool {
    exists|a: A| call_ensures(parse, (part,), Ok::<A, String>(a))
}

/// How the addresses of a bind configuration relate to `parts`, its pieces
/// as written, when `parse` reads one address: every piece parsed, in order,
/// duplicates kept; or the message for the first piece that does not parse,
/// every piece before it having parsed; or, with no piece at all, the message
/// that the configuration names no address.
pub open spec fn bind_addrs_from<A, P: Fn(String) -> Result<A, String>>(
    parse: P,
    parts: Seq<String>,
    r: Result<Vec<A>, String>,
) -> bool {
    match r {
        Ok(v) => {
            &&& parts.len() > 0
            &&& v@.len() == parts.len()
            &&& forall|i: int|
                0 <= i < parts.len() ==> call_ensures(parse, (parts[i],), Ok::<A, String>(#[trigger] v@[i]))
        },
        Err(e) => {
            ||| parts.len() == 0 && e@ == no_bind_address_text()
            ||| exists|i: int, err: String|
                #![trigger call_ensures(parse, (parts[i],), Err::<A, String>(err))]
                {
                    &&& 0 <= i < parts.len()
                    &&& call_ensures(parse, (parts[i],), Err::<A, String>(err))
                    &&& e@ == bind_error_text(parts[i]@, err@)
                    &&& forall|j: int| 0 <= j < i ==> parses(parse, #[trigger] parts[j])
                }
        },
    }
}

/// The socket addresses of a bind configuration such as
/// `"[::]:3650, 0.0.0.0:3650"`: it is split at `,`, `;` and spaces, each piece
/// is trimmed, blank pieces are dropped, and `parse` reads each remaining
/// piece in order until one fails.
pub fn parse_bind_addrs<A, P: Fn(String) -> Result<A, String>>(bind: &str, parse: P) -> (r: Result<Vec<A>, String>)
    requires
        forall|part: String| call_requires(parse, (part,)),
    ensures
        exists|parts: Seq<String>| texts(parts) == bind_parts(bind@) && bind_addrs_from(parse, parts, r),
{
    let parts = bind_address_parts(bind);
    if parts.len() == 0 {
        return Err(String::from_str("CC_SWITCH_WEB_BIND did not contain any bind address"));
    }
    let mut out: Vec<A> = Vec::new();
    let mut i: usize = 0;
    while i < parts.len()
        invariant
            i <= parts@.len(),
            out@.len() == i,
            texts(parts@) == bind_parts(bind@),
            forall|part: String| call_requires(parse, (part,)),
            forall|j: int|
                0 <= j < i ==> call_ensures(parse, (parts@[j],), Ok::<A, String>(#[trigger] out@[j])),
        decreases parts@.len() - i,
    {
        let part = parts[i].clone();
        let parsed = parse(part);
        match parsed {
            Ok(a) => {
                out.push(a);
            },
            Err(e) => {
                let msg = String::from_str("Invalid bind address '").concat(parts[i].as_str()).concat(
                    "': ",
                ).concat(e.as_str());
                proof {
                    assert forall|j: int| 0 <= j < i implies parses(parse, #[trigger] parts@[j]) by {
                        assert(call_ensures(parse, (parts@[j],), Ok::<A, String>(out@[j])));
                    }
                    assert(call_ensures(parse, (parts@[i as int],), Err::<A, String>(e)));
                }
                return Err(msg);
            },
        }
        i = i + 1;
    }
    Ok(out)
}

/// With a parser that gives one result for each text, a bind configuration
/// is accepted exactly when it names at least one address and every address
/// it names parses.
pub proof fn lemma_bind_addrs_accepted_iff_all_parse<A, P: Fn(String) -> Result<A, String>>(
    parse: P,
    parts: Seq<String>,
    r: Result<Vec<A>, String>,
)
    requires
        bind_addrs_from(parse, parts, r),
        forall|part: String, x: Result<A, String>, y: Result<A, String>|
            call_ensures(parse, (part,), x) && call_ensures(parse, (part,), y) ==> x == y,
    ensures
        r is Ok <==> (parts.len() > 0 && forall|i: int| 0 <= i < parts.len() ==> parses(parse, #[trigger] parts[i])),
{
    match r {
        Ok(v) => {
            assert forall|i: int| 0 <= i < parts.len() implies parses(parse, #[trigger] parts[i]) by {
                assert(call_ensures(parse, (parts[i],), Ok::<A, String>(v@[i])));
            }
        },
        Err(e) => {
            if parts.len() > 0 {
                let (i, err) = choose|i: int, err: String|
                    #![trigger call_ensures(parse, (parts[i],), Err::<A, String>(err))]
                    {
                        &&& 0 <= i < parts.len()
                        &&& call_ensures(parse, (parts[i],), Err::<A, String>(err))
                        &&& e@ == bind_error_text(parts[i]@, err@)
                        &&& forall|j: int| 0 <= j < i ==> parses(parse, #[trigger] parts[j])
                    };
                if parses(parse, parts[i]) {
                    let a = choose|a: A| call_ensures(parse, (parts[i],), Ok::<A, String>(a));
                    assert(Ok::<A, String>(a) == Err::<A, String>(err));
                }
            }
        },
    }
}

/// What listening on one address gave.
#[derive(Clone, Copy, Debug, PartialEq, Eq)]
pub enum BindOutcome {
    Listening,
    AddressInUse,
    Failed,
}

/// What to do after trying one address.
#[derive(Clone, Copy, Debug, PartialEq, Eq)]
pub enum BindAction {
    /// Serve on the address.
    Serve,
    /// Skip it quietly: it is in use, most likely by a listener already
    /// started here (an IPv6 listener that also accepts IPv4).
    SkipInUse,
    /// Skip it and report the failure.
    SkipFailed,
}

pub open spec fn spec_bind_action(bound: nat, outcome: BindOutcome) -> BindAction {
    match outcome {
        BindOutcome::Listening => BindAction::Serve,
        BindOutcome::AddressInUse => if bound > 0 {
            BindAction::SkipInUse
        } else {
            BindAction::SkipFailed
        },
        BindOutcome::Failed => BindAction::SkipFailed,
    }
}

/// The number of listeners after one more outcome.
pub open spec fn spec_bound_after(bound: nat, outcome: BindOutcome) -> nat {
    match outcome {
        BindOutcome::Listening => bound + 1,
        _ => bound,
    }
}

/// How many of the configured addresses are served so far.
#[derive(Debug, PartialEq, Eq)]
pub struct BindProgress {
    pub bound: usize,
}

impl BindProgress {
    pub fn new() -> (r: BindProgress)
        ensures
            r.bound == 0,
    {
        BindProgress { bound: 0 }
    }

    /// Records the outcome of trying one address and says what to do.
    pub fn record(&mut self, outcome: BindOutcome) -> (r: BindAction)
        requires
            old(self).bound < usize::MAX,
        ensures
            r == spec_bind_action(old(self).bound as nat, outcome),
            final(self).bound == spec_bound_after(old(self).bound as nat, outcome),
    {
        match outcome {
            BindOutcome::Listening => {
                self.bound = self.bound + 1;
                BindAction::Serve
            },
            BindOutcome::AddressInUse => {
                if self.bound > 0 {
                    BindAction::SkipInUse
                } else {
                    BindAction::SkipFailed
                }
            },
            BindOutcome::Failed => BindAction::SkipFailed,
        }
    }

    /// True when no address is served: the server cannot start.
    pub fn none_bound(&self) -> (r: bool)
        ensures
            r == (self.bound == 0),
    {
        self.bound == 0
    }
}


/// The number of listeners after trying the addresses in order.
pub open spec fn spec_bound_after_all(outcomes: Seq<BindOutcome>) -> nat
    decreases outcomes.len(),
{
    if outcomes.len() == 0 {
        0
    } else {
        spec_bound_after(spec_bound_after_all(outcomes.drop_last()), outcomes.last())
    }
}

/// The server starts (some address is served) exactly when some address
/// could be listened on, and it never serves more addresses than it tried.
pub proof fn lemma_serves_iff_some_address_listens(outcomes: Seq<BindOutcome>)
    ensures
        spec_bound_after_all(outcomes) > 0 <==> exists|i: int|
            0 <= i < outcomes.len() && (#[trigger] outcomes[i]) is Listening,
        spec_bound_after_all(outcomes) <= outcomes.len(),
    decreases outcomes.len(),
{
    if outcomes.len() > 0 {
        let front = outcomes.drop_last();
        lemma_serves_iff_some_address_listens(front);
        if spec_bound_after_all(front) > 0 {
            let i = choose|i: int| 0 <= i < front.len() && (#[trigger] front[i]) is Listening;
            assert(outcomes[i] == front[i]);
        }
        if exists|i: int| 0 <= i < outcomes.len() && (#[trigger] outcomes[i]) is Listening {
            let i = choose|i: int| 0 <= i < outcomes.len() && (#[trigger] outcomes[i]) is Listening;
            if i < front.len() {
                assert(front[i] == outcomes[i]);
            }
        }
    }
}

} // verus!

//! Opaque identifiers of the protocol.
//!
//! Generated identifiers look like `<prefix>-<32 lowercase hex digits>`; any
//! other string is accepted as well, since receivers treat identifiers as
//! opaque.
use vstd::prelude::*;

verus! {

/// A lowercase hexadecimal digit.
pub open spec fn is_lower_hex(c: char) -> bool {
    ('0' <= c && c <= '9') || ('a' <= c && c <= 'f')
}

/// The "simple" textual form of a UUID: 32 lowercase hexadecimal digits.
pub open spec fn is_simple_uuid(s: Seq<char>) -> bool {
    s.len() == 32 && forall|i: int| 0 <= i < 32 ==> #[trigger] is_lower_hex(s[i])
}

/// A freshly generated identifier with the given prefix.
pub open spec fn is_generated_id(prefix: Seq<char>, s: Seq<char>) -> bool {
    &&& s.len() == prefix.len() + 33
    &&& s.subrange(0, prefix.len() as int) == prefix
    &&& s[prefix.len() as int] == '-'
    &&& is_simple_uuid(s.subrange(prefix.len() + 1int, s.len() as int))
}

/// Calls `uuid::Uuid::new_v4()` and renders it with `.simple()`.
///
/// Trusted: the uuid crate renders the simple form as 32 lowercase hex
/// digits. The value itself is random, so nothing more is claimed.
#[verifier::external_body]
pub(crate) fn new_uuid_simple() -> (res: String)
    ensures
        is_simple_uuid(res@),
{
    uuid::Uuid::new_v4().simple().to_string()
}

/// `prefix` followed by `-` and a fresh simple UUID.
pub(crate) fn generate_with_prefix(prefix: &str) -> (res: String)
    ensures
        is_generated_id(prefix@, res@),
{
    let uuid = new_uuid_simple();
    let mut s = String::from_str(prefix);
    s.append("-");
    s.append(uuid.as_str());
    proof {
        reveal_strlit("-");
        assert(s@.subrange(0, prefix@.len() as int) =~= prefix@);
        assert(s@.subrange(prefix@.len() + 1int, s@.len() as int) =~= uuid@);
    }
    s
}


/// Identifier of a workspace, assigned by `kb_core`.
#[derive(Debug, Clone, PartialEq, Eq, Hash, PartialOrd, Ord)]
pub struct WorkspaceId(String);

impl View for WorkspaceId {
    type V = Seq<char>;

    closed spec fn view(&self) -> Seq<char> {
        self.0@
    }
}

impl WorkspaceId {
    /// An identifier with the given text.
    pub fn new(value: &str) -> (r: Self)
        ensures
            r@ == value@,
    {
        WorkspaceId(value.to_owned())
    }

    /// An identifier that takes over the given string.
    pub fn from_string(value: String) -> (r: Self)
        ensures
            r@ == value@,
    {
        WorkspaceId(value)
    }

    /// The identifier as text.
    pub fn as_str(&self) -> (r: &str)
        ensures
            r@ == self@,
    {
        self.0.as_str()
    }

    /// The identifier as an owned string.
    pub fn into_string(self) -> (r: String)
        ensures
            r@ == self@,
    {
        self.0
    }

    /// The identifier as an owned string (its display form).
    pub fn to_string(&self) -> (r: String)
        ensures
            r@ == self@,
    {
        self.0.clone()
    }

    /// The prefix of generated identifiers of this kind.
    pub const PREFIX: &'static str = "w";

    /// A fresh identifier: `w-` followed by 32 lowercase hex digits.
    pub fn generate() -> (r: Self)
        ensures
            is_generated_id("w"@, r@),
    {
        WorkspaceId(generate_with_prefix("w"))
    }
}

impl From<&str> for WorkspaceId {
    fn from(value: &str) -> (r: Self)
        ensures
            r@ == value@,
    {
        WorkspaceId(value.to_owned())
    }
}

impl vstd::std_specs::convert::FromSpecImpl<&str> for WorkspaceId {
    open spec fn obeys_from_spec() -> bool {
        false
    }

    open spec fn from_spec(value: &str) -> Self {
        choose|r: WorkspaceId| r@ == value@
    }
}

/// Identifier of a session, assigned by `kb_core`.
#[derive(Debug, Clone, PartialEq, Eq, Hash, PartialOrd, Ord)]
pub struct SessionId(String);

impl View for SessionId {
    type V = Seq<char>;

    closed spec fn view(&self) -> Seq<char> {
        self.0@
    }
}

impl SessionId {
    /// An identifier with the given text.
    pub fn new(value: &str) -> (r: Self)
        ensures
            r@ == value@,
    {
        SessionId(value.to_owned())
    }

    /// An identifier that takes over the given string.
    pub fn from_string(value: String) -> (r: Self)
        ensures
            r@ == value@,
    {
        SessionId(value)
    }

    /// The identifier as text.
    pub fn as_str(&self) -> (r: &str)
        ensures
            r@ == self@,
    {
        self.0.as_str()
    }

    /// The identifier as an owned string.
    pub fn into_string(self) -> (r: String)
        ensures
            r@ == self@,
    {
        self.0
    }

    /// The identifier as an owned string (its display form).
    pub fn to_string(&self) -> (r: String)
        ensures
            r@ == self@,
    {
        self.0.clone()
    }

    /// The prefix of generated identifiers of this kind.
    pub const PREFIX: &'static str = "s";

    /// A fresh identifier: `s-` followed by 32 lowercase hex digits.
    pub fn generate() -> (r: Self)
        ensures
            is_generated_id("s"@, r@),
    {
        SessionId(generate_with_prefix("s"))
    }
}

impl From<&str> for SessionId {
    fn from(value: &str) -> (r: Self)
        ensures
            r@ == value@,
    {
        SessionId(value.to_owned())
    }
}

impl vstd::std_specs::convert::FromSpecImpl<&str> for SessionId {
    open spec fn obeys_from_spec() -> bool {
        false
    }

    open spec fn from_spec(value: &str) -> Self {
        choose|r: SessionId| r@ == value@
    }
}

/// Identifier of one round of generation, chosen by the client.
#[derive(Debug, Clone, PartialEq, Eq, Hash, PartialOrd, Ord)]
pub struct TurnId(String);

impl View for TurnId {
    type V = Seq<char>;

    closed spec fn view(&self) -> Seq<char> {
        self.0@
    }
}

impl TurnId {
    /// An identifier with the given text.
    pub fn new(value: &str) -> (r: Self)
        ensures
            r@ == value@,
    {
        TurnId(value.to_owned())
    }

    /// An identifier that takes over the given string.
    pub fn from_string(value: String) -> (r: Self)
        ensures
            r@ == value@,
    {
        TurnId(value)
    }

    /// The identifier as text.
    pub fn as_str(&self) -> (r: &str)
        ensures
            r@ == self@,
    {
        self.0.as_str()
    }

    /// The identifier as an owned string.
    pub fn into_string(self) -> (r: String)
        ensures
            r@ == self@,
    {
        self.0
    }

    /// The identifier as an owned string (its display form).
    pub fn to_string(&self) -> (r: String)
        ensures
            r@ == self@,
    {
        self.0.clone()
    }

    /// The prefix of generated identifiers of this kind.
    pub const PREFIX: &'static str = "t";

    /// A fresh identifier: `t-` followed by 32 lowercase hex digits.
    pub fn generate() -> (r: Self)
        ensures
            is_generated_id("t"@, r@),
    {
        TurnId(generate_with_prefix("t"))
    }
}

impl From<&str> for TurnId {
    fn from(value: &str) -> (r: Self)
        ensures
            r@ == value@,
    {
        TurnId(value.to_owned())
    }
}

impl vstd::std_specs::convert::FromSpecImpl<&str> for TurnId {
    open spec fn obeys_from_spec() -> bool {
        false
    }

    open spec fn from_spec(value: &str) -> Self {
        choose|r: TurnId| r@ == value@
    }
}

/// Identifier of an object created locally by a client and not yet synchronised.
#[derive(Debug, Clone, PartialEq, Eq, Hash, PartialOrd, Ord)]
pub struct LocalId(String);

impl View for LocalId {
    type V = Seq<char>;

    closed spec fn view(&self) -> Seq<char> {
        self.0@
    }
}

impl LocalId {
    /// An identifier with the given text.
    pub fn new(value: &str) -> (r: Self)
        ensures
            r@ == value@,
    {
        LocalId(value.to_owned())
    }

    /// An identifier that takes over the given string.
    pub fn from_string(value: String) -> (r: Self)
        ensures
            r@ == value@,
    {
        LocalId(value)
    }

    /// The identifier as text.
    pub fn as_str(&self) -> (r: &str)
        ensures
            r@ == self@,
    {
        self.0.as_str()
    }

    /// The identifier as an owned string.
    pub fn into_string(self) -> (r: String)
        ensures
            r@ == self@,
    {
        self.0
    }

    /// The identifier as an owned string (its display form).
    pub fn to_string(&self) -> (r: String)
        ensures
            r@ == self@,
    {
        self.0.clone()
    }

    /// The prefix of generated identifiers of this kind.
    pub const PREFIX: &'static str = "l";

    /// A fresh identifier: `l-` followed by 32 lowercase hex digits.
    pub fn generate() -> (r: Self)
        ensures
            is_generated_id("l"@, r@),
    {
        LocalId(generate_with_prefix("l"))
    }
}

impl From<&str> for LocalId {
    fn from(value: &str) -> (r: Self)
        ensures
            r@ == value@,
    {
        LocalId(value.to_owned())
    }
}

impl vstd::std_specs::convert::FromSpecImpl<&str> for LocalId {
    open spec fn obeys_from_spec() -> bool {
        false
    }

    open spec fn from_spec(value: &str) -> Self {
        choose|r: LocalId| r@ == value@
    }
}

/// Identifier of a request, unique within one connection.
#[derive(Debug, Clone, PartialEq, Eq, Hash, PartialOrd, Ord)]
pub struct RequestId(String);

impl View for RequestId {
    type V = Seq<char>;

    closed spec fn view(&self) -> Seq<char> {
        self.0@
    }
}

impl RequestId {
    /// An identifier with the given text.
    pub fn new(value: &str) -> (r: Self)
        ensures
            r@ == value@,
    {
        RequestId(value.to_owned())
    }

    /// An identifier that takes over the given string.
    pub fn from_string(value: String) -> (r: Self)
        ensures
            r@ == value@,
    {
        RequestId(value)
    }

    /// The identifier as text.
    pub fn as_str(&self) -> (r: &str)
        ensures
            r@ == self@,
    {
        self.0.as_str()
    }

    /// The identifier as an owned string.
    pub fn into_string(self) -> (r: String)
        ensures
            r@ == self@,
    {
        self.0
    }

    /// The identifier as an owned string (its display form).
    pub fn to_string(&self) -> (r: String)
        ensures
            r@ == self@,
    {
        self.0.clone()
    }

    /// The prefix of generated identifiers of this kind.
    pub const PREFIX: &'static str = "q";

    /// A fresh identifier: `q-` followed by 32 lowercase hex digits.
    pub fn generate() -> (r: Self)
        ensures
            is_generated_id("q"@, r@),
    {
        RequestId(generate_with_prefix("q"))
    }
}

impl From<&str> for RequestId {
    fn from(value: &str) -> (r: Self)
        ensures
            r@ == value@,
    {
        RequestId(value.to_owned())
    }
}

impl vstd::std_specs::convert::FromSpecImpl<&str> for RequestId {
    open spec fn obeys_from_spec() -> bool {
        false
    }

    open spec fn from_spec(value: &str) -> Self {
        choose|r: RequestId| r@ == value@
    }
}

/// Identifier of an LLM service; a user-chosen name.
#[derive(Debug, Clone, PartialEq, Eq, Hash, PartialOrd, Ord)]
pub struct ServiceId(String);

impl View for ServiceId {
    type V = Seq<char>;

    closed spec fn view(&self) -> Seq<char> {
        self.0@
    }
}

impl ServiceId {
    /// An identifier with the given text.
    pub fn new(value: &str) -> (r: Self)
        ensures
            r@ == value@,
    {
        ServiceId(value.to_owned())
    }

    /// An identifier that takes over the given string.
    pub fn from_string(value: String) -> (r: Self)
        ensures
            r@ == value@,
    {
        ServiceId(value)
    }

    /// The identifier as text.
    pub fn as_str(&self) -> (r: &str)
        ensures
            r@ == self@,
    {
        self.0.as_str()
    }

    /// The identifier as an owned string.
    pub fn into_string(self) -> (r: String)
        ensures
            r@ == self@,
    {
        self.0
    }

    /// The identifier as an owned string (its display form).
    pub fn to_string(&self) -> (r: String)
        ensures
            r@ == self@,
    {
        self.0.clone()
    }
}

impl From<&str> for ServiceId {
    fn from(value: &str) -> (r: Self)
        ensures
            r@ == value@,
    {
        ServiceId(value.to_owned())
    }
}

impl vstd::std_specs::convert::FromSpecImpl<&str> for ServiceId {
    open spec fn obeys_from_spec() -> bool {
        false
    }

    open spec fn from_spec(value: &str) -> Self {
        choose|r: ServiceId| r@ == value@
    }
}
} // verus!

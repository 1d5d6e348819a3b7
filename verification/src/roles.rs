//! The role hierarchy: a total order over the closed set of privilege levels.

use vstd::prelude::*;

verus! {

use vstd::std_specs::cmp::PartialOrdSpec;

/// Privilege levels, ordered `Watcher < Editor < Admin`.
#[derive(Debug, Clone, Copy, PartialEq, Eq, Structural)]
pub enum UserRole {
    Watcher,
    Editor,
    Admin,
}

/// `d` is the ASCII-lowercase form of `c`.
pub open spec fn lowers_to(c: char, d: char) -> bool {
    if 65 <= c as u32 <= 90 {
        d as u32 == c as u32 + 32
    } else {
        d == c
    }
}

/// `s` equals `t` up to ASCII case folding of `s`; `t` is expected lower case.
pub open spec fn folds_to(s: Seq<char>, t: Seq<char>) -> bool {
    s.len() == t.len() && (forall|i: int| 0 <= i < s.len() ==> lowers_to(s[i], #[trigger] t[i]))
}

impl UserRole {
    /// Numeric rank of the role; higher means more privilege.
    pub open spec fn spec_id(self) -> nat {
        match self {
            UserRole::Watcher => 0,
            UserRole::Editor => 1,
            UserRole::Admin => 2,
        }
    }

    /// Lower-case name of the role.
    pub open spec fn spec_name(self) -> Seq<char> {
        match self {
            UserRole::Watcher => "watcher"@,
            UserRole::Editor => "editor"@,
            UserRole::Admin => "admin"@,
        }
    }

    /// The role a free-form string denotes: the role whose name the string
    /// matches up to ASCII case, and the least privileged role for anything
    /// unrecognized (fail closed).
    pub open spec fn spec_from(s: Seq<char>) -> UserRole {
        if folds_to(s, "watcher"@) {
            UserRole::Watcher
        } else if folds_to(s, "editor"@) {
            UserRole::Editor
        } else if folds_to(s, "admin"@) {
            UserRole::Admin
        } else {
            UserRole::Watcher
        }
    }

    pub fn get_id(&self) -> (r: usize)
        ensures
            r == self.spec_id(),
    {
        match self {
            UserRole::Watcher => 0,
            UserRole::Editor => 1,
            UserRole::Admin => 2,
        }
    }

    /// Lower-case name of the role, for token claims and storage.
    pub fn as_str(&self) -> (r: &'static str)
        ensures
            r@ == self.spec_name(),
    {
        match self {
            UserRole::Watcher => "watcher",
            UserRole::Editor => "editor",
            UserRole::Admin => "admin",
        }
    }

    /// Parse a free-form role string, case-insensitively on ASCII letters,
    /// defaulting unrecognized input to the least privileged role.
    pub fn from_str(role: &str) -> (r: UserRole)
        ensures
            r == UserRole::spec_from(role@),
    {
        if str_folds_to(role, "watcher") {
            UserRole::Watcher
        } else if str_folds_to(role, "editor") {
            UserRole::Editor
        } else if str_folds_to(role, "admin") {
            UserRole::Admin
        } else {
            UserRole::Watcher
        }
    }
}

/// Case-folded comparison of `s` against an expected lower-case `t`.
fn str_folds_to(s: &str, t: &str) -> (r: bool)
    ensures
        r == folds_to(s@, t@),
{
    let n = s.unicode_len();
    if n != t.unicode_len() {
        return false;
    }
    for i in 0..n
        invariant
            n == s@.len(),
            n == t@.len(),
            forall|j: int| 0 <= j < i ==> lowers_to(s@[j], #[trigger] t@[j]),
    {
        let c = s.get_char(i);
        let d = t.get_char(i);
        let cu = c as u32;
        let du = d as u32;
        let ok = if 65 <= cu && cu <= 90 {
            du == cu + 32
        } else {
            du == cu
        };
        if !ok {
            assert(!lowers_to(s@[i as int], t@[i as int]));
            return false;
        }
        assert(lowers_to(s@[i as int], t@[i as int]));
    }
    true
}

impl PartialOrd for UserRole {
    fn partial_cmp(&self, other: &Self) -> (r: Option<core::cmp::Ordering>) {
        let a = self.get_id();
        let b = other.get_id();
        if a < b {
            Some(core::cmp::Ordering::Less)
        } else if a == b {
            Some(core::cmp::Ordering::Equal)
        } else {
            Some(core::cmp::Ordering::Greater)
        }
    }
}

impl vstd::std_specs::cmp::PartialOrdSpecImpl for UserRole {
    open spec fn obeys_partial_cmp_spec() -> bool {
        true
    }

    open spec fn partial_cmp_spec(&self, other: &Self) -> Option<core::cmp::Ordering> {
        if self.spec_id() < other.spec_id() {
            Some(core::cmp::Ordering::Less)
        } else if self.spec_id() == other.spec_id() {
            Some(core::cmp::Ordering::Equal)
        } else {
            Some(core::cmp::Ordering::Greater)
        }
    }
}

/// The role hierarchy is a strict total order:
/// `Watcher < Editor < Admin` holds pairwise, comparison is total, and two
/// roles compare equal exactly when they are the same role.
pub proof fn lemma_role_total_order(a: UserRole, b: UserRole)
    ensures
        UserRole::Watcher.spec_id() < UserRole::Editor.spec_id()
            < UserRole::Admin.spec_id(),
        a.spec_id() == b.spec_id() <==> a == b,
        a.spec_id() <= b.spec_id() || b.spec_id() <= a.spec_id(),
        a.partial_cmp_spec(&b) == Some(core::cmp::Ordering::Less) <==> a.spec_id()
            < b.spec_id(),
        a.partial_cmp_spec(&b) == Some(core::cmp::Ordering::Equal) <==> a == b,
{
}

/// Parsing the printed name of a role recovers the role itself.
pub proof fn lemma_role_name_round_trip(r: UserRole)
    ensures
        UserRole::spec_from(r.spec_name()) == r,
{
    reveal_strlit("watcher");
    reveal_strlit("editor");
    reveal_strlit("admin");
    assert(folds_to("watcher"@, "watcher"@));
    assert(folds_to("editor"@, "editor"@));
    assert(folds_to("admin"@, "admin"@));
    assert(!folds_to("editor"@, "watcher"@));
    assert(!folds_to("admin"@, "watcher"@));
    assert(!folds_to("admin"@, "editor"@));
}

} // verus!

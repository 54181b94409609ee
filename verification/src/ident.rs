//! Package identities.
//!
//! An identity is the tuple (origin, name, version, release). A *fully
//! qualified* identity has all four parts; a *spec* identity may omit the
//! version and/or the release. Two fully qualified identities with the
//! same origin and name are ordered lexicographically on (version,
//! release); identities with different origins or names are incomparable
//! and are never compared here.

use vstd::prelude::*;

verus! {

/// The mathematical value of a package identity: the views of its four
/// parts.
#[verifier::ext_equal]
pub ghost struct IdentView {
    pub origin: Seq<char>,
    pub name: Seq<char>,
    pub version: Option<Seq<char>>,
    pub release: Option<Seq<char>>,
}

impl IdentView {
    /// Whether all four parts are present.
    pub open spec fn is_fully_qualified(self) -> bool {
        self.version is Some && self.release is Some
    }

    /// Whether two identities name the same package line and so may be
    /// ordered against one another.
    pub open spec fn same_base(self, other: IdentView) -> bool {
        self.origin == other.origin && self.name == other.name
    }

    /// Strict ordering of two fully qualified identities of the same
    /// base: lexicographic on (version, release).
    pub open spec fn before(self, other: IdentView) -> bool
        recommends
            self.is_fully_qualified(),
            other.is_fully_qualified(),
            self.same_base(other),
    {
        ||| lex_lt(self.version->0, other.version->0)
        ||| (self.version->0 == other.version->0 && lex_lt(self.release->0, other.release->0))
    }
}

/// Strict lexicographic order on character sequences, by code point, with
/// a proper prefix ordered before its extensions.
pub open spec fn lex_lt(a: Seq<char>, b: Seq<char>) -> bool
    decreases a.len(),
{
    if b.len() == 0 {
        false
    } else if a.len() == 0 {
        true
    } else if a[0] != b[0] {
        (a[0] as u32) < (b[0] as u32)
    } else {
        lex_lt(a.drop_first(), b.drop_first())
    }
}

/// A package identity. Spec identities leave `version` and/or `release`
/// unset.
#[derive(Debug)]
pub struct PackageIdent {
    pub origin: String,
    pub name: String,
    pub version: Option<String>,
    pub release: Option<String>,
}

impl View for PackageIdent {
    type V = IdentView;

    open spec fn view(&self) -> IdentView {
        IdentView {
            origin: self.origin@,
            name: self.name@,
            version: match self.version {
                Some(v) => Some(v@),
                None => None,
            },
            release: match self.release {
                Some(r) => Some(r@),
                None => None,
            },
        }
    }
}

/// View-preserving copy of an optional string.
fn clone_opt_string(s: &Option<String>) -> (r: Option<String>)
    ensures
        r is Some <==> s is Some,
        r matches Some(v) ==> v@ == s->0@,
{
    match s {
        Some(v) => Some(v.clone()),
        None => None,
    }
}

/// Whether two optional strings hold the same characters.
fn opt_string_eq(a: &Option<String>, b: &Option<String>) -> (r: bool)
    ensures
        r == (match (a, b) {
            (Some(x), Some(y)) => x@ == y@,
            (None, None) => true,
            _ => false,
        }),
{
    match (a, b) {
        (Some(x), Some(y)) => x.eq(y),
        (None, None) => true,
        _ => false,
    }
}

impl PackageIdent {
    /// Builds an identity from its parts.
    pub fn new(
        origin: String,
        name: String,
        version: Option<String>,
        release: Option<String>,
    ) -> (r: PackageIdent)
        ensures
            r@ == (IdentView {
                origin: origin@,
                name: name@,
                version: match version {
                    Some(v) => Some(v@),
                    None => None,
                },
                release: match release {
                    Some(rl) => Some(rl@),
                    None => None,
                },
            }),
    {
        PackageIdent { origin, name, version, release }
    }

    /// View-preserving copy.
    pub fn duplicate(&self) -> (r: PackageIdent)
        ensures
            r@ == self@,
    {
        let r = PackageIdent {
            origin: self.origin.clone(),
            name: self.name.clone(),
            version: clone_opt_string(&self.version),
            release: clone_opt_string(&self.release),
        };
        proof {
            assert(r@ =~= self@);
        }
        r
    }

    /// Whether all four parts are present.
    pub fn fully_qualified(&self) -> (r: bool)
        ensures
            r == self@.is_fully_qualified(),
    {
        self.version.is_some() && self.release.is_some()
    }

    /// Whether the two identities hold exactly the same parts.
    pub fn same_ident(&self, other: &PackageIdent) -> (r: bool)
        ensures
            r == (self@ == other@),
    {
        let r = self.origin == other.origin && self.name == other.name && opt_string_eq(
            &self.version,
            &other.version,
        ) && opt_string_eq(&self.release, &other.release);
        proof {
            if r {
                assert(self@ =~= other@);
            }
        }
        r
    }

    /// Whether `self` is strictly older than `other` under the ordering
    /// on fully qualified identities of the same base.
    pub fn before(&self, other: &PackageIdent) -> (r: bool)
        requires
            self@.is_fully_qualified(),
            other@.is_fully_qualified(),
            self@.same_base(other@),
        ensures
            r == self@.before(other@),
    {
        let my_version = self.version.as_ref().unwrap();
        let other_version = other.version.as_ref().unwrap();
        if str_lex_lt(my_version.as_str(), other_version.as_str()) {
            true
        } else if my_version.eq(other_version) {
            let my_release = self.release.as_ref().unwrap();
            let other_release = other.release.as_ref().unwrap();
            str_lex_lt(my_release.as_str(), other_release.as_str())
        } else {
            false
        }
    }
}

/// Whether two optional identities hold the same value.
pub fn opt_ident_eq(a: &Option<PackageIdent>, b: &Option<PackageIdent>) -> (r: bool)
    ensures
        r == (match (a, b) {
            (Some(x), Some(y)) => x@ == y@,
            (None, None) => true,
            _ => false,
        }),
{
    match (a, b) {
        (Some(x), Some(y)) => x.same_ident(y),
        (None, None) => true,
        _ => false,
    }
}

/// View of an optional identity.
pub open spec fn opt_ident_view(p: Option<PackageIdent>) -> Option<IdentView> {
    match p {
        Some(q) => Some(q@),
        None => None,
    }
}

/// Skipping one equal leading character does not change the order of two
/// sequences.
proof fn lemma_lex_lt_skip(a: Seq<char>, b: Seq<char>, i: int)
    requires
        0 <= i < a.len(),
        0 <= i < b.len(),
        a[i] == b[i],
    ensures
        lex_lt(a.skip(i), b.skip(i)) == lex_lt(a.skip(i + 1), b.skip(i + 1)),
{
    assert(a.skip(i).drop_first() =~= a.skip(i + 1));
    assert(b.skip(i).drop_first() =~= b.skip(i + 1));
    assert(a.skip(i)[0] == a[i]);
    assert(b.skip(i)[0] == b[i]);
}

/// Decides the lexicographic order of two strings.
pub fn str_lex_lt(a: &str, b: &str) -> (r: bool)
    ensures
        r == lex_lt(a@, b@),
{
    let a_len = a.unicode_len();
    let b_len = b.unicode_len();
    let mut i: usize = 0;
    proof {
        assert(a@.skip(0) =~= a@);
        assert(b@.skip(0) =~= b@);
    }
    while i < a_len && i < b_len
        invariant
            0 <= i <= a_len,
            0 <= i <= b_len,
            a_len == a@.len(),
            b_len == b@.len(),
            lex_lt(a@, b@) == lex_lt(a@.skip(i as int), b@.skip(i as int)),
        decreases a_len - i,
    {
        let ca = a.get_char(i);
        let cb = b.get_char(i);
        if ca != cb {
            proof {
                assert(a@.skip(i as int)[0] == a@[i as int]);
                assert(b@.skip(i as int)[0] == b@[i as int]);
            }
            return (ca as u32) < (cb as u32);
        }
        proof {
            lemma_lex_lt_skip(a@, b@, i as int);
        }
        i = i + 1;
    }
    proof {
        if i == a_len {
            if i < b_len {
                assert(b@.skip(i as int).len() > 0);
                assert(a@.skip(i as int).len() == 0);
            } else {
                assert(b@.skip(i as int).len() == 0);
            }
        } else {
            assert(b@.skip(i as int).len() == 0);
        }
    }
    i < b_len
}

} // verus!

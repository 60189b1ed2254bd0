//! The closed role vocabulary and role-set membership.
//!
//! A user's roles are persisted as an ordered collection but are semantically
//! a set: duplicates are a defect, never a feature. Addition is idempotent and
//! removal is defensive, clearing every occurrence of a role even if corrupted
//! state holds it twice.

use vstd::prelude::*;

verus! {

/// The finite role vocabulary. Compared by exact symbolic value; the persisted
/// text form is reached only through [`Roles::as_text`] and
/// [`Roles::from_text`].
#[derive(Debug, Clone, Copy, PartialEq, Eq, Structural)]
pub enum Roles {
    Patient,
    Doctor,
}

/// The text form under which a role is persisted.
pub open spec fn spec_role_text(r: Roles) -> Seq<char> {
    match r {
        Roles::Patient => "Patient"@,
        Roles::Doctor => "Doctor"@,
    }
}

/// The role denoted by a persisted text form, if any.
pub open spec fn spec_role_from_text(s: Seq<char>) -> Option<Roles> {
    if s == "Patient"@ {
        Some(Roles::Patient)
    } else if s == "Doctor"@ {
        Some(Roles::Doctor)
    } else {
        None
    }
}

/// How many times a role occurs in an ordered role collection.
pub open spec fn role_count(s: Seq<Roles>, r: Roles) -> nat
    decreases s.len(),
{
    if s.len() == 0 {
        0
    } else {
        role_count(s.drop_last(), r) + if s.last() == r {
            1nat
        } else {
            0nat
        }
    }
}

/// The role collection after an idempotent addition: unchanged when the role
/// is already a member, appended otherwise.
pub open spec fn spec_add_role(s: Seq<Roles>, r: Roles) -> Seq<Roles> {
    if s.contains(r) {
        s
    } else {
        s.push(r)
    }
}

/// The role collection after a defensive removal: every occurrence of the
/// role is gone, all other entries keep their order.
pub open spec fn spec_remove_role(s: Seq<Roles>, r: Roles) -> Seq<Roles> {
    s.filter(|x: Roles| x != r)
}

impl Roles {
    /// The text form under which this role is persisted.
    pub fn as_text(&self) -> (res: &'static str)
        ensures
            res@ == spec_role_text(*self),
    {
        match self {
            Roles::Patient => "Patient",
            Roles::Doctor => "Doctor",
        }
    }

    /// The text form as an owned string.
    pub fn to_text(&self) -> (res: String)
        ensures
            res@ == spec_role_text(*self),
    {
        self.as_text().to_owned()
    }

    /// Parses a persisted text form back into a role.
    pub fn from_text(s: &str) -> (res: Option<Roles>)
        ensures
            res == spec_role_from_text(s@),
    {
        let owned = s.to_owned();
        if owned == String::from_str("Patient") {
            Some(Roles::Patient)
        } else if owned == String::from_str("Doctor") {
            Some(Roles::Doctor)
        } else {
            None
        }
    }
}

/// The two text forms denote distinct roles, so the mapping between symbolic
/// value and persisted text is bijective: parsing the text of a role yields
/// that role and nothing else.
pub proof fn lemma_role_text_roundtrip(r: Roles)
    ensures
        spec_role_from_text(spec_role_text(r)) == Some(r),
{
    reveal_strlit("Patient");
    reveal_strlit("Doctor");
    assert("Patient"@.len() == 7);
    assert("Doctor"@.len() == 6);
}

/// Whether a role is a member of an ordered role collection.
pub fn roles_contain(roles: &Vec<Roles>, role: Roles) -> (res: bool)
    ensures
        res == roles@.contains(role),
{
    let n = roles.len();
    for i in 0..n
        invariant
            n == roles@.len(),
            forall|j: int| 0 <= j < i ==> roles@[j] != role,
    {
        if roles[i] == role {
            return true;
        }
    }
    false
}

/// Adds a role to a collection, idempotently: a collection that already holds
/// the role is left unchanged, so the addition never produces a duplicate.
pub fn add_role(roles: &mut Vec<Roles>, role: Roles)
    ensures
        final(roles)@ == spec_add_role(old(roles)@, role),
{
    if !roles_contain(roles, role) {
        roles.push(role);
    }
}

/// Removes every occurrence of a role from a collection, defensively: even a
/// corrupted collection holding the role more than once ends with none.
pub fn remove_role(roles: &mut Vec<Roles>, role: Roles)
    ensures
        final(roles)@ == spec_remove_role(old(roles)@, role),
{
    let n = roles.len();
    let mut kept: Vec<Roles> = Vec::new();
    for i in 0..n
        invariant
            n == roles@.len(),
            kept@ == spec_remove_role(roles@.subrange(0, i as int), role),
    {
        proof {
            assert(roles@.subrange(0, i + 1).drop_last() == roles@.subrange(0, i as int));
        }
        if roles[i] != role {
            kept.push(roles[i]);
        }
        proof {
            reveal_with_fuel(Seq::<_>::filter, 2);
        }
    }
    proof {
        assert(roles@.subrange(0, n as int) =~= roles@);
    }
    *roles = kept;
}

/// A membership count is positive exactly when the collection contains the
/// role.
pub proof fn lemma_contains_iff_count_pos(s: Seq<Roles>, r: Roles)
    ensures
        s.contains(r) <==> role_count(s, r) > 0,
    decreases s.len(),
{
    if s.len() > 0 {
        lemma_contains_iff_count_pos(s.drop_last(), r);
        if s.last() != r && s.contains(r) {
            let i = choose|i: int| 0 <= i < s.len() && s[i] == r;
            assert(s.drop_last()[i] == r);
        }
    }
}

/// Appending one entry raises the count of its role by one and leaves every
/// other count alone.
pub proof fn lemma_count_push(s: Seq<Roles>, x: Roles, r: Roles)
    ensures
        role_count(s.push(x), r) == role_count(s, r) + if x == r {
            1nat
        } else {
            0nat
        },
{
    assert(s.push(x).drop_last() == s);
}

/// Adding a role to a collection that lacks it yields exactly one occurrence,
/// and adding it again changes nothing: two additions leave a single entry.
pub proof fn lemma_add_role_twice(s: Seq<Roles>, r: Roles)
    requires
        role_count(s, r) == 0,
    ensures
        spec_add_role(spec_add_role(s, r), r) == spec_add_role(s, r),
        role_count(spec_add_role(spec_add_role(s, r), r), r) == 1,
{
    lemma_contains_iff_count_pos(s, r);
    let s1 = s.push(r);
    assert(s1[s.len() as int] == r);
    assert(s1.contains(r));
    lemma_count_push(s, r, r);
    lemma_contains_iff_count_pos(s1, r);
}

/// Defensive removal clears the removed role entirely and keeps the count of
/// every other role as it was, on any collection, corrupted or not.
pub proof fn lemma_remove_role_counts(s: Seq<Roles>, r: Roles, other: Roles)
    ensures
        role_count(spec_remove_role(s, r), r) == 0,
        other != r ==> role_count(spec_remove_role(s, r), other) == role_count(s, other),
    decreases s.len(),
{
    reveal_with_fuel(Seq::<_>::filter, 2);
    if s.len() == 0 {
        assert(s.filter(|x: Roles| x != r) == Seq::<Roles>::empty());
    } else {
        lemma_remove_role_counts(s.drop_last(), r, other);
        assert(s.drop_last().push(s.last()) == s);
        let kept = spec_remove_role(s.drop_last(), r);
        if s.last() != r {
            lemma_count_push(kept, s.last(), r);
            lemma_count_push(kept, s.last(), other);
        }
    }
}

} // verus!

use vstd::prelude::*;

verus! {

/// A capability that an account can hold.
#[derive(Clone, Copy, Debug, PartialEq, Eq, Hash, Structural)]
pub enum Permission {
    ExtendedAccess,
    ListHelper,
    ListModerator,
    ListAdministrator,
    LeaderboardModerator,
    LeaderboardAdministrator,
    Moderator,
    Administrator,
}

/// Every bit that stands for a capability.
pub const ALL_BITS: u16 = 0x603f;

impl Permission {
    /// The bit that stands for this capability in the stored form of a set.
    pub open spec fn spec_bit(self) -> u16 {
        match self {
            Permission::ExtendedAccess => 0x0001,
            Permission::ListHelper => 0x0002,
            Permission::ListModerator => 0x0004,
            Permission::ListAdministrator => 0x0008,
            Permission::LeaderboardModerator => 0x0010,
            Permission::LeaderboardAdministrator => 0x0020,
            Permission::Moderator => 0x2000,
            Permission::Administrator => 0x4000,
        }
    }

    #[verifier::when_used_as_spec(spec_bit)]
    pub fn bit(self) -> (b: u16)
        ensures
            b == self.spec_bit(),
    {
        match self {
            Permission::ExtendedAccess => 0x0001,
            Permission::ListHelper => 0x0002,
            Permission::ListModerator => 0x0004,
            Permission::ListAdministrator => 0x0008,
            Permission::LeaderboardModerator => 0x0010,
            Permission::LeaderboardAdministrator => 0x0020,
            Permission::Moderator => 0x2000,
            Permission::Administrator => 0x4000,
        }
    }
}

/// Whether `bits` has the bit of `p` set.
pub open spec fn holds(bits: u16, p: Permission) -> bool {
    bits & p.spec_bit() != 0
}

/// The capabilities whose bits are set in `bits`.
pub open spec fn flags_of(bits: u16) -> Set<Permission> {
    Set::new(|p: Permission| holds(bits, p))
}

/// Two bit patterns without stray bits share a set bit exactly when they share a
/// capability.
pub proof fn lemma_common_bit(a: u16, b: u16)
    requires
        a & !ALL_BITS == 0,
    ensures
        (a & b != 0) <==> exists|p: Permission| holds(a, p) && holds(b, p),
{
    if a & b != 0 {
        assert(a & 0x0001 != 0 && b & 0x0001 != 0 || a & 0x0002 != 0 && b & 0x0002 != 0 || a
            & 0x0004 != 0 && b & 0x0004 != 0 || a & 0x0008 != 0 && b & 0x0008 != 0 || a & 0x0010
            != 0 && b & 0x0010 != 0 || a & 0x0020 != 0 && b & 0x0020 != 0 || a & 0x2000 != 0 && b
            & 0x2000 != 0 || a & 0x4000 != 0 && b & 0x4000 != 0) by (bit_vector)
            requires
                a & b != 0,
                a & !0x603fu16 == 0,
        ;
        if a & 0x0001 != 0 && b & 0x0001 != 0 {
            assert(holds(a, Permission::ExtendedAccess) && holds(b, Permission::ExtendedAccess));
        } else if a & 0x0002 != 0 && b & 0x0002 != 0 {
            assert(holds(a, Permission::ListHelper) && holds(b, Permission::ListHelper));
        } else if a & 0x0004 != 0 && b & 0x0004 != 0 {
            assert(holds(a, Permission::ListModerator) && holds(b, Permission::ListModerator));
        } else if a & 0x0008 != 0 && b & 0x0008 != 0 {
            assert(holds(a, Permission::ListAdministrator) && holds(
                b,
                Permission::ListAdministrator,
            ));
        } else if a & 0x0010 != 0 && b & 0x0010 != 0 {
            assert(holds(a, Permission::LeaderboardModerator) && holds(
                b,
                Permission::LeaderboardModerator,
            ));
        } else if a & 0x0020 != 0 && b & 0x0020 != 0 {
            assert(holds(a, Permission::LeaderboardAdministrator) && holds(
                b,
                Permission::LeaderboardAdministrator,
            ));
        } else if a & 0x2000 != 0 && b & 0x2000 != 0 {
            assert(holds(a, Permission::Moderator) && holds(b, Permission::Moderator));
        } else {
            assert(holds(a, Permission::Administrator) && holds(b, Permission::Administrator));
        }
    }
    if exists|p: Permission| holds(a, p) && holds(b, p) {
        let p = choose|p: Permission| holds(a, p) && holds(b, p);
        let m = p.spec_bit();
        assert(a & b != 0) by (bit_vector)
            requires
                a & m != 0,
                b & m != 0,
                m == 0x0001 || m == 0x0002 || m == 0x0004 || m == 0x0008 || m == 0x0010 || m
                    == 0x0020 || m == 0x2000 || m == 0x4000,
        ;
    }
}

/// Distinct capabilities have distinct bits, and no two of them overlap.
pub proof fn lemma_bits_apart(p: Permission, q: Permission)
    ensures
        holds(p.spec_bit(), q) <==> p == q,
        p.spec_bit() & !ALL_BITS == 0,
{
    let m = p.spec_bit();
    let n = q.spec_bit();
    assert(((m & n != 0) <==> m == n) && m & !0x603fu16 == 0) by (bit_vector)
        requires
            m == 0x0001 || m == 0x0002 || m == 0x0004 || m == 0x0008 || m == 0x0010 || m
                == 0x0020 || m == 0x2000 || m == 0x4000,
            n == 0x0001 || n == 0x0002 || n == 0x0004 || n == 0x0008 || n == 0x0010 || n
                == 0x0020 || n == 0x2000 || n == 0x4000,
    ;
}

/// Setting bits adds the capabilities that they stand for, and nothing else.
pub proof fn lemma_joined_bits(a: u16, b: u16, p: Permission)
    ensures
        holds(a | b, p) <==> holds(a, p) || holds(b, p),
        a & !ALL_BITS == 0 && b & !ALL_BITS == 0 ==> (a | b) & !ALL_BITS == 0,
{
    let m = p.spec_bit();
    assert(((a | b) & m != 0) <==> (a & m != 0) || (b & m != 0)) by (bit_vector);
    assert(a & !0x603fu16 == 0 && b & !0x603fu16 == 0 ==> (a | b) & !0x603fu16 == 0)
        by (bit_vector);
}

/// Dropping the bits that stand for nothing changes no capability.
pub proof fn lemma_masked_bits(a: u16, p: Permission)
    ensures
        holds(a & ALL_BITS, p) <==> holds(a, p),
        (a & ALL_BITS) & !ALL_BITS == 0,
{
    let m = p.spec_bit();
    assert((((a & 0x603fu16) & m != 0) <==> (a & m != 0)) && (a & 0x603fu16) & !0x603fu16 == 0)
        by (bit_vector)
        requires
            m == 0x0001 || m == 0x0002 || m == 0x0004 || m == 0x0008 || m == 0x0010 || m
                == 0x0020 || m == 0x2000 || m == 0x4000,
    ;
}

/// An unordered collection of capabilities.
///
/// An operation names the set that it requires; an account is authorised for it
/// when the set that it was granted shares at least one capability with the
/// required one.
#[derive(Clone, Copy, Debug, PartialEq, Eq, Hash)]
pub struct PermissionsSet {
    bits: u16,
}

impl View for PermissionsSet {
    type V = Set<Permission>;

    closed spec fn view(&self) -> Set<Permission> {
        flags_of(self.bits)
    }
}

/// The bits that stand for the capabilities in `flags`.
pub open spec fn bits_of(flags: Set<Permission>) -> u16 {
    (if flags.contains(Permission::ExtendedAccess) { 0x0001u16 } else { 0 })
    | (if flags.contains(Permission::ListHelper) { 0x0002u16 } else { 0 })
    | (if flags.contains(Permission::ListModerator) { 0x0004u16 } else { 0 })
    | (if flags.contains(Permission::ListAdministrator) { 0x0008u16 } else { 0 })
    | (if flags.contains(Permission::LeaderboardModerator) { 0x0010u16 } else { 0 })
    | (if flags.contains(Permission::LeaderboardAdministrator) { 0x0020u16 } else { 0 })
    | (if flags.contains(Permission::Moderator) { 0x2000u16 } else { 0 })
    | (if flags.contains(Permission::Administrator) { 0x4000u16 } else { 0 })
}

/// The bits of a set of capabilities stand for these capabilities and for nothing
/// else.
pub proof fn lemma_bits_of(flags: Set<Permission>)
    ensures
        bits_of(flags) & !ALL_BITS == 0,
        flags_of(bits_of(flags)) == flags,
{
    let b0 = flags.contains(Permission::ExtendedAccess);
    let b1 = flags.contains(Permission::ListHelper);
    let b2 = flags.contains(Permission::ListModerator);
    let b3 = flags.contains(Permission::ListAdministrator);
    let b4 = flags.contains(Permission::LeaderboardModerator);
    let b5 = flags.contains(Permission::LeaderboardAdministrator);
    let b6 = flags.contains(Permission::Moderator);
    let b7 = flags.contains(Permission::Administrator);
    let x = bits_of(flags);
    assert(x & !0x603fu16 == 0 && (x & 0x0001 != 0 <==> b0) && (x & 0x0002 != 0 <==> b1) && (x
        & 0x0004 != 0 <==> b2) && (x & 0x0008 != 0 <==> b3) && (x & 0x0010 != 0 <==> b4) && (x
        & 0x0020 != 0 <==> b5) && (x & 0x2000 != 0 <==> b6) && (x & 0x4000 != 0 <==> b7))
        by (bit_vector)
        requires
            x == (if b0 { 0x0001u16 } else { 0 }) | (if b1 { 0x0002u16 } else { 0 }) | (if b2 {
                0x0004u16
            } else {
                0
            }) | (if b3 { 0x0008u16 } else { 0 }) | (if b4 { 0x0010u16 } else { 0 }) | (if b5 {
                0x0020u16
            } else {
                0
            }) | (if b6 { 0x2000u16 } else { 0 }) | (if b7 { 0x4000u16 } else { 0 }),
    ;
    assert forall|p: Permission| holds(x, p) <==> flags.contains(p) by {
        match p {
            Permission::ExtendedAccess => {},
            Permission::ListHelper => {},
            Permission::ListModerator => {},
            Permission::ListAdministrator => {},
            Permission::LeaderboardModerator => {},
            Permission::LeaderboardAdministrator => {},
            Permission::Moderator => {},
            Permission::Administrator => {},
        }
    }
    assert(flags_of(x) =~= flags);
}

/// Bit patterns without stray bits that stand for the same capabilities are the
/// same.
pub proof fn lemma_same_flags_same_bits(a: u16, b: u16)
    requires
        a & !ALL_BITS == 0,
        b & !ALL_BITS == 0,
        flags_of(a) == flags_of(b),
    ensures
        a == b,
{
    assert forall|p: Permission| holds(a, p) <==> holds(b, p) by {
        assert(flags_of(a).contains(p) == holds(a, p));
        assert(flags_of(b).contains(p) == holds(b, p));
    }
    assert(holds(a, Permission::ExtendedAccess) <==> holds(b, Permission::ExtendedAccess));
    assert(holds(a, Permission::ListHelper) <==> holds(b, Permission::ListHelper));
    assert(holds(a, Permission::ListModerator) <==> holds(b, Permission::ListModerator));
    assert(holds(a, Permission::ListAdministrator) <==> holds(b, Permission::ListAdministrator));
    assert(holds(a, Permission::LeaderboardModerator) <==> holds(
        b,
        Permission::LeaderboardModerator,
    ));
    assert(holds(a, Permission::LeaderboardAdministrator) <==> holds(
        b,
        Permission::LeaderboardAdministrator,
    ));
    assert(holds(a, Permission::Moderator) <==> holds(b, Permission::Moderator));
    assert(holds(a, Permission::Administrator) <==> holds(b, Permission::Administrator));
    assert(a == b) by (bit_vector)
        requires
            a & !0x603fu16 == 0,
            b & !0x603fu16 == 0,
            (a & 0x0001 != 0) <==> (b & 0x0001 != 0),
            (a & 0x0002 != 0) <==> (b & 0x0002 != 0),
            (a & 0x0004 != 0) <==> (b & 0x0004 != 0),
            (a & 0x0008 != 0) <==> (b & 0x0008 != 0),
            (a & 0x0010 != 0) <==> (b & 0x0010 != 0),
            (a & 0x0020 != 0) <==> (b & 0x0020 != 0),
            (a & 0x2000 != 0) <==> (b & 0x2000 != 0),
            (a & 0x4000 != 0) <==> (b & 0x4000 != 0),
    ;
}

impl PermissionsSet {
    /// Whether the stored form holds no bit that stands for nothing. This holds of
    /// every set that the program can get hold of.
    #[verifier::type_invariant]
    pub closed spec fn wf(self) -> bool {
        self.bits & !ALL_BITS == 0
    }

    /// The set that holds the capabilities in `flags`.
    pub closed spec fn of(flags: Set<Permission>) -> PermissionsSet {
        PermissionsSet { bits: bits_of(flags) }
    }

    /// `of` gives a set of the right form that holds what it was given.
    pub proof fn lemma_of(flags: Set<Permission>)
        ensures
            Self::of(flags).wf(),
            Self::of(flags)@ == flags,
    {
        lemma_bits_of(flags);
    }

    /// Sets that hold the same capabilities are the same.
    pub proof fn lemma_equal(self, other: PermissionsSet)
        requires
            self.wf(),
            other.wf(),
            self@ == other@,
        ensures
            self == other,
    {
        lemma_same_flags_same_bits(self.bits, other.bits);
    }

    /// A set is the one that `of` makes of what it holds.
    pub proof fn lemma_canonical(self)
        requires
            self.wf(),
        ensures
            self == Self::of(self@),
    {
        Self::lemma_of(self@);
        self.lemma_equal(Self::of(self@));
    }

    /// The set that holds nothing.
    pub fn new() -> (set: Self)
        ensures
            set@ == Set::<Permission>::empty(),
    {
        proof {
            assert(0u16 & !0x603fu16 == 0) by (bit_vector);
            assert forall|p: Permission| !holds(0u16, p) by {
                let m = p.spec_bit();
                assert(0u16 & m == 0) by (bit_vector);
            }
            assert(flags_of(0u16) =~= Set::<Permission>::empty());
        }
        PermissionsSet { bits: 0 }
    }

    /// The set that holds `permission` alone.
    pub fn one(permission: Permission) -> (set: Self)
        ensures
            set@ == Set::<Permission>::empty().insert(permission),
    {
        proof {
            assert forall|q: Permission| holds(permission.spec_bit(), q) <==> q == permission by {
                lemma_bits_apart(permission, q);
            }
            lemma_bits_apart(permission, permission);
            assert(flags_of(permission.spec_bit()) =~= Set::<Permission>::empty().insert(
                permission,
            ));
        }
        PermissionsSet { bits: permission.bit() }
    }

    /// This set with `permission` added to it.
    pub fn with(self, permission: Permission) -> (set: Self)
        ensures
            set@ == self@.insert(permission),
    {
        proof {
            use_type_invariant(&self);
            lemma_bits_apart(permission, permission);
            lemma_joined_bits(self.bits, permission.spec_bit(), permission);
            assert forall|q: Permission|
                holds(self.bits | permission.spec_bit(), q) <==> holds(self.bits, q) || q
                    == permission by {
                lemma_joined_bits(self.bits, permission.spec_bit(), q);
                lemma_bits_apart(permission, q);
            }
            assert(flags_of(self.bits | permission.spec_bit()) =~= flags_of(self.bits).insert(
                permission,
            ));
        }
        PermissionsSet { bits: self.bits | permission.bit() }
    }

    /// Everything that is in this set or in `other`.
    pub fn union(self, other: PermissionsSet) -> (set: Self)
        ensures
            set@ == self@.union(other@),
    {
        proof {
            use_type_invariant(&self);
            use_type_invariant(&other);
            assert forall|q: Permission|
                holds(self.bits | other.bits, q) <==> holds(self.bits, q) || holds(
                    other.bits,
                    q,
                ) by {
                lemma_joined_bits(self.bits, other.bits, q);
            }
            lemma_joined_bits(self.bits, other.bits, Permission::ExtendedAccess);
            assert(flags_of(self.bits | other.bits) =~= flags_of(self.bits).union(
                flags_of(other.bits),
            ));
        }
        PermissionsSet { bits: self.bits | other.bits }
    }

    /// The set whose stored form is `bits`; bits that stand for nothing are dropped.
    pub fn from_bits(bits: u16) -> (set: Self)
        ensures
            set@ == flags_of(bits),
    {
        proof {
            assert forall|q: Permission| holds(bits & ALL_BITS, q) <==> holds(bits, q) by {
                lemma_masked_bits(bits, q);
            }
            lemma_masked_bits(bits, Permission::ExtendedAccess);
            assert(flags_of(bits & ALL_BITS) =~= flags_of(bits));
        }
        PermissionsSet { bits: bits & ALL_BITS }
    }

    /// The stored form of this set.
    pub fn bits(&self) -> (bits: u16)
        ensures
            flags_of(bits) == self@,
            bits & !ALL_BITS == 0,
    {
        proof {
            use_type_invariant(self);
        }
        self.bits
    }

    /// Whether `permission` is in this set.
    pub fn contains(&self, permission: Permission) -> (found: bool)
        ensures
            found == self@.contains(permission),
    {
        self.bits & permission.bit() != 0
    }

    /// Whether this set holds nothing.
    pub fn is_empty(&self) -> (empty: bool)
        ensures
            empty == (self@ == Set::<Permission>::empty()),
    {
        proof {
            use_type_invariant(self);
            let a = self.bits;
            lemma_common_bit(a, a);
            assert((a & a != 0) <==> a != 0) by (bit_vector);
            if a == 0 {
                assert forall|p: Permission| !holds(a, p) by {
                    let m = p.spec_bit();
                    assert(0u16 & m == 0) by (bit_vector);
                }
                assert(flags_of(a) =~= Set::<Permission>::empty());
            } else {
                let p = choose|p: Permission| holds(a, p) && holds(a, p);
                assert(flags_of(a).contains(p));
            }
        }
        self.bits == 0
    }

    /// Whether this set shares a capability with `other`.
    pub fn has_any(&self, other: &PermissionsSet) -> (shared: bool)
        ensures
            shared == !self@.disjoint(other@),
    {
        proof {
            use_type_invariant(self);
            lemma_common_bit(self.bits, other.bits);
            if exists|p: Permission| holds(self.bits, p) && holds(other.bits, p) {
                let p = choose|p: Permission| holds(self.bits, p) && holds(other.bits, p);
                assert(flags_of(self.bits).contains(p) && flags_of(other.bits).contains(p));
            }
            if !flags_of(self.bits).disjoint(flags_of(other.bits)) {
                let p = choose|p: Permission|
                    flags_of(self.bits).contains(p) && flags_of(other.bits).contains(p);
                assert(holds(self.bits, p) && holds(other.bits, p));
            }
        }
        self.bits & other.bits != 0
    }
}

} // verus!

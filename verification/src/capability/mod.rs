//! Capability-based permission model.
//!
//! Controls which RPC domains and operations a client can access. The list
//! of capabilities is read from the `VCLI_CAPABILITY` environment variable
//! (a comma-separated list); the parsing of that list lives here.
use vstd::prelude::*;

use crate::text::{
    chars_equal, chars_of, lemma_lower_idempotent, lower_seq, lowered_range, trim, trimmed_bounds,
};

verus! {

broadcast use vstd::string::group_string_axioms;

/// High-level capability categories.
#[derive(Debug, Clone, Copy, PartialEq, Eq, Hash, Structural)]
pub enum Capability {
    Schematic,
    Maestro,
    Window,
    Cell,
    Simulation,
    Transaction,
    /// Allow raw SKILL exec (dangerous; local development only).
    Admin,
}

/// The capability whose (lower-case) name is `t`, if any.
pub open spec fn capability_named(t: Seq<char>) -> Option<Capability> {
    if t == "schematic"@ {
        Some(Capability::Schematic)
    } else if t == "maestro"@ {
        Some(Capability::Maestro)
    } else if t == "window"@ {
        Some(Capability::Window)
    } else if t == "cell"@ {
        Some(Capability::Cell)
    } else if t == "simulation"@ {
        Some(Capability::Simulation)
    } else if t == "transaction"@ {
        Some(Capability::Transaction)
    } else if t == "admin"@ {
        Some(Capability::Admin)
    } else {
        None
    }
}

/// The capability whose name the (already lowered) characters `v` spell.
fn capability_from_chars(v: &Vec<char>) -> (r: Option<Capability>)
    ensures
        r == capability_named(v@),
{
    if chars_equal(v, "schematic") {
        Some(Capability::Schematic)
    } else if chars_equal(v, "maestro") {
        Some(Capability::Maestro)
    } else if chars_equal(v, "window") {
        Some(Capability::Window)
    } else if chars_equal(v, "cell") {
        Some(Capability::Cell)
    } else if chars_equal(v, "simulation") {
        Some(Capability::Simulation)
    } else if chars_equal(v, "transaction") {
        Some(Capability::Transaction)
    } else if chars_equal(v, "admin") {
        Some(Capability::Admin)
    } else {
        None
    }
}

impl Capability {
    /// The domain prefix of the RPC method names that this capability covers.
    pub open spec fn spec_domain(self) -> Seq<char> {
        match self {
            Capability::Schematic => "schematic"@,
            Capability::Maestro => "maestro"@,
            Capability::Window => "window"@,
            Capability::Cell => "cell"@,
            Capability::Simulation => "simulation"@,
            Capability::Transaction => "transaction"@,
            Capability::Admin => "*"@,
        }
    }

    /// Parses a capability name, ignoring the case of ASCII letters.
    ///
    /// The names are ASCII and hold no `k`, so comparing after an ASCII
    /// lowering gives the same answer as comparing after a full Unicode
    /// lowering (the one non-ASCII character that lowers to an ASCII letter,
    /// the Kelvin sign, lowers to `k`).
    pub fn from_str(s: &str) -> (r: Option<Self>)
        ensures
            r == capability_named(lower_seq(s@)),
    {
        let v = chars_of(s);
        let l = lowered_range(&v, 0, v.len());
        assert(v@.subrange(0, v@.len() as int) =~= v@);
        capability_from_chars(&l)
    }

    /// Returns the domain prefix used in RPC method names.
    pub fn domain(&self) -> (r: &'static str)
        ensures
            r@ == self.spec_domain(),
    {
        match self {
            Capability::Schematic => "schematic",
            Capability::Maestro => "maestro",
            Capability::Window => "window",
            Capability::Cell => "cell",
            Capability::Simulation => "simulation",
            Capability::Transaction => "transaction",
            Capability::Admin => "*",
        }
    }

    /// Returns true if this capability allows admin/raw skill exec.
    pub fn is_admin(&self) -> (r: bool)
        ensures
            r == (*self == Capability::Admin),
    {
        *self == Capability::Admin
    }
}


/// The domain part of an RPC method name "domain.operation": the characters
/// before the first `.`, or the whole name when it holds none.
pub open spec fn method_domain(m: Seq<char>) -> Seq<char>
    decreases m.len(),
{
    if m.len() == 0 || m[0] == '.' {
        Seq::empty()
    } else {
        seq![m[0]] + method_domain(m.drop_first())
    }
}

/// The capability that gates the RPC method named `m`: only the schematic,
/// maestro, window and cell domains are gated; any other method is refused.
pub open spec fn gating_capability(m: Seq<char>) -> Option<Capability> {
    let d = method_domain(m);
    if d == "schematic"@ {
        Some(Capability::Schematic)
    } else if d == "maestro"@ {
        Some(Capability::Maestro)
    } else if d == "window"@ {
        Some(Capability::Window)
    } else if d == "cell"@ {
        Some(Capability::Cell)
    } else {
        None
    }
}

/// `s[i..j]` is one of the pieces that cutting `s` at every `sep` gives.
pub open spec fn is_piece(s: Seq<char>, sep: char, i: int, j: int) -> bool {
    &&& 0 <= i <= j <= s.len()
    &&& (i == 0 || s[i - 1] == sep)
    &&& (j == s.len() || s[j] == sep)
    &&& forall|k: int| i <= k < j ==> s[k] != sep
}

/// The capabilities named in a comma-separated list: every piece, trimmed of
/// white space, whose name parses (case aside) as a capability.
pub open spec fn listed_capabilities(s: Seq<char>) -> Set<Capability> {
    Set::new(
        |c: Capability|
            exists|i: int, j: int|
                #[trigger] is_piece(s, ',', i, j) && capability_named(
                    lower_seq(trim(s.subrange(i, j))),
                ) == Some(c),
    )
}

/// The capabilities named by the pieces of `s` that end before `n`.
pub open spec fn listed_before(s: Seq<char>, n: int) -> Set<Capability> {
    Set::new(
        |c: Capability|
            exists|i: int, j: int|
                #[trigger] is_piece(s, ',', i, j) && j < n && capability_named(
                    lower_seq(trim(s.subrange(i, j))),
                ) == Some(c),
    )
}

/// A piece that starts at `start` and runs to the next comma (or the end)
/// is the only piece that ends in `start..=end`.
proof fn lemma_next_piece(s: Seq<char>, start: int, end: int)
    requires
        0 <= start <= end <= s.len(),
        start == 0 || s[start - 1] == ',',
        end == s.len() || s[end] == ',',
        forall|k: int| start <= k < end ==> s[k] != ',',
    ensures
        is_piece(s, ',', start, end),
        forall|i: int, j: int|
            #[trigger] is_piece(s, ',', i, j) && j <= end ==> j < start || (i == start && j == end),
{
    assert forall|i: int, j: int| #[trigger] is_piece(s, ',', i, j) && j <= end implies j < start
        || (i == start && j == end) by {
        if j >= start {
            if j < end {
                assert(s[j] == ',');
            }
            assert(j == end);
            if i < start {
                assert(s[start - 1] != ',');
            }
            if i > start {
                assert(s[i - 1] == ',');
            }
        }
    }
}

/// A set of capabilities.
#[derive(Debug)]
pub struct CapabilitySet {
    members: Vec<Capability>,
}

impl View for CapabilitySet {
    type V = Set<Capability>;

    closed spec fn view(&self) -> Set<Capability> {
        self.members@.to_set()
    }
}

impl CapabilitySet {
    /// No capability occurs twice.
    #[verifier::type_invariant]
    closed spec fn members_distinct(self) -> bool {
        self.members@.no_duplicates()
    }

    /// Whether this set grants `cap`: it holds `cap`, or it holds `Admin`.
    pub open spec fn spec_permits(self, cap: Capability) -> bool {
        self@.contains(cap) || self@.contains(Capability::Admin)
    }

    /// Whether this set grants the RPC method named `m`.
    pub open spec fn spec_permits_method(self, m: Seq<char>) -> bool {
        match gating_capability(m) {
            Some(c) => self.spec_permits(c),
            None => false,
        }
    }

    /// The empty set.
    pub fn new() -> (r: Self)
        ensures
            r@ == Set::<Capability>::empty(),
    {
        let r = CapabilitySet { members: Vec::new() };
        assert(r@ =~= Set::<Capability>::empty());
        r
    }

    fn contains(&self, cap: Capability) -> (r: bool)
        ensures
            r == self@.contains(cap),
    {
        let mut i: usize = 0;
        while i < self.members.len()
            invariant
                i <= self.members@.len(),
                forall|k: int| 0 <= k < i ==> self.members@[k] != cap,
            decreases self.members@.len() - i,
        {
            if self.members[i] == cap {
                assert(self.members@.contains(cap));
                return true;
            }
            i = i + 1;
        }
        false
    }

    /// Adds `cap` to the set.
    pub fn insert(&mut self, cap: Capability)
        ensures
            final(self)@ == old(self)@.insert(cap),
    {
        proof {
            use_type_invariant(&*self);
        }
        if self.contains(cap) {
            assert(self@.insert(cap) =~= self@);
        } else {
            let ghost before = self.members@;
            let mut members = Vec::new();
            std::mem::swap(&mut members, &mut self.members);
            members.push(cap);
            assert(members@.no_duplicates()) by {
                assert(members@ == before.push(cap));
                assert(!before.contains(cap));
            }
            self.members = members;
            proof {
                before.lemma_push_to_set_commute(cap);
            }
        }
    }

    /// The set of the capabilities in `caps`.
    pub fn from_caps(caps: &[Capability]) -> (r: Self)
        ensures
            r@ == caps@.to_set(),
    {
        let mut r = CapabilitySet::new();
        let mut i: usize = 0;
        while i < caps.len()
            invariant
                i <= caps@.len(),
                r@ == caps@.subrange(0, i as int).to_set(),
            decreases caps@.len() - i,
        {
            r.insert(caps[i]);
            i = i + 1;
            proof {
                caps@.subrange(0, i - 1).lemma_push_to_set_commute(caps@[i - 1]);
                assert(caps@.subrange(0, i as int) =~= caps@.subrange(0, i - 1).push(caps@[i - 1]));
            }
        }
        assert(caps@.subrange(0, caps@.len() as int) =~= caps@);
        r
    }

    /// Every capability but `Admin`: what a client holds when no list was given.
    pub fn all_but_admin() -> (r: Self)
        ensures
            r@ == set![
                Capability::Schematic,
                Capability::Maestro,
                Capability::Window,
                Capability::Cell,
                Capability::Simulation,
                Capability::Transaction,
            ],
    {
        let mut r = CapabilitySet::new();
        r.insert(Capability::Schematic);
        r.insert(Capability::Maestro);
        r.insert(Capability::Window);
        r.insert(Capability::Cell);
        r.insert(Capability::Simulation);
        r.insert(Capability::Transaction);
        r
    }

    /// Adds the capability that the piece `v[start..end]` names, if any.
    fn add_piece(&mut self, v: &Vec<char>, start: usize, end: usize)
        requires
            start <= end <= v@.len(),
        ensures
            final(self)@ == match capability_named(
                lower_seq(trim(v@.subrange(start as int, end as int))),
            ) {
                Some(c) => old(self)@.insert(c),
                None => old(self)@,
            },
    {
        let (a, b) = trimmed_bounds(v, start, end);
        let l = lowered_range(v, a, b);
        match capability_from_chars(&l) {
            Some(c) => self.insert(c),
            None => {},
        }
    }

    /// Parses a comma-separated list of capability names, as the
    /// `VCLI_CAPABILITY` variable holds one: each piece is trimmed of white
    /// space and parsed as `Capability::from_str` does; a piece that names no
    /// capability is skipped.
    pub fn parse_list(s: &str) -> (r: Self)
        ensures
            r@ == listed_capabilities(s@),
    {
        let v = chars_of(s);
        let mut r = CapabilitySet::new();
        let mut start: usize = 0;
        let mut i: usize = 0;
        assert(r@ =~= listed_before(v@, 0));
        while i < v.len()
            invariant
                v@ == s@,
                start <= i <= v@.len(),
                start == 0 || v@[start - 1] == ',',
                forall|k: int| start <= k < i ==> v@[k] != ',',
                r@ == listed_before(v@, start as int),
            decreases v@.len() - i,
        {
            if v[i] == ',' {
                let ghost before = r@;
                r.add_piece(&v, start, i);
                proof {
                    lemma_next_piece(v@, start as int, i as int);
                    let named = capability_named(
                        lower_seq(trim(v@.subrange(start as int, i as int))),
                    );
                    assert forall|c: Capability|
                        listed_before(v@, i + 1).contains(c) <==> r@.contains(c) by {
                        if listed_before(v@, i + 1).contains(c) {
                            let (a, b) = choose|a: int, b: int|
                                #[trigger] is_piece(v@, ',', a, b) && b < i + 1 && capability_named(
                                    lower_seq(trim(v@.subrange(a, b))),
                                ) == Some(c);
                            if b < start {
                                assert(before.contains(c));
                            }
                        }
                        if before.contains(c) {
                            let (a, b) = choose|a: int, b: int|
                                #[trigger] is_piece(v@, ',', a, b) && b < start && capability_named(
                                    lower_seq(trim(v@.subrange(a, b))),
                                ) == Some(c);
                            assert(listed_before(v@, i + 1).contains(c));
                        }
                        if named == Some(c) {
                            assert(is_piece(v@, ',', start as int, i as int));
                            assert(listed_before(v@, i + 1).contains(c));
                        }
                    }
                    assert(r@ =~= listed_before(v@, i + 1));
                }
                start = i + 1;
            }
            i = i + 1;
        }
        let ghost before = r@;
        r.add_piece(&v, start, i);
        proof {
            lemma_next_piece(v@, start as int, i as int);
            let named = capability_named(lower_seq(trim(v@.subrange(start as int, i as int))));
            assert forall|c: Capability| listed_capabilities(s@).contains(c) <==> r@.contains(c) by {
                if listed_capabilities(s@).contains(c) {
                    let (a, b) = choose|a: int, b: int|
                        #[trigger] is_piece(v@, ',', a, b) && capability_named(
                            lower_seq(trim(v@.subrange(a, b))),
                        ) == Some(c);
                    if b < start {
                        assert(before.contains(c));
                    }
                }
                if before.contains(c) {
                    let (a, b) = choose|a: int, b: int|
                        #[trigger] is_piece(v@, ',', a, b) && b < start && capability_named(
                            lower_seq(trim(v@.subrange(a, b))),
                        ) == Some(c);
                    assert(listed_capabilities(s@).contains(c));
                }
                if named == Some(c) {
                    assert(is_piece(v@, ',', start as int, i as int));
                    assert(listed_capabilities(s@).contains(c));
                }
            }
            assert(r@ =~= listed_capabilities(s@));
        }
        r
    }

    /// Check if this set includes the given capability.
    pub fn permits(&self, cap: Capability) -> (r: bool)
        ensures
            r == self.spec_permits(cap),
    {
        self.contains(cap) || self.contains(Capability::Admin)
    }

    /// Check if a specific RPC method name is permitted.
    /// Method names are "domain.operation" (e.g. "schematic.place").
    pub fn permits_method(&self, method: &str) -> (r: bool)
        ensures
            r == self.spec_permits_method(method@),
    {
        let m = chars_of(method);
        let mut domain: Vec<char> = Vec::new();
        let mut i: usize = 0;
        assert(m@.skip(0) =~= m@);
        assert(domain@ + method_domain(m@) =~= method_domain(m@));
        while i < m.len() && m[i] != '.'
            invariant
                i <= m@.len(),
                method_domain(m@) == domain@ + method_domain(m@.skip(i as int)),
            decreases m@.len() - i,
        {
            assert(m@.skip(i as int).drop_first() =~= m@.skip(i + 1));
            assert(seq![m@[i as int]] + method_domain(m@.skip(i + 1)) == method_domain(
                m@.skip(i as int),
            ));
            domain.push(m[i]);
            i = i + 1;
            assert(method_domain(m@) =~= domain@ + method_domain(m@.skip(i as int)));
        }
        assert(method_domain(m@.skip(i as int)) == Seq::<char>::empty());
        assert(domain@ =~= method_domain(m@));
        if chars_equal(&domain, "schematic") {
            self.permits(Capability::Schematic)
        } else if chars_equal(&domain, "maestro") {
            self.permits(Capability::Maestro)
        } else if chars_equal(&domain, "window") {
            self.permits(Capability::Window)
        } else if chars_equal(&domain, "cell") {
            self.permits(Capability::Cell)
        } else {
            false
        }
    }

    /// Returns true if raw SKILL exec is allowed (Admin capability).
    pub fn allows_raw_skill(&self) -> (r: bool)
        ensures
            r == self@.contains(Capability::Admin),
    {
        self.contains(Capability::Admin)
    }
}


/// Cutting at the first `.` gives back a prefix that holds no `.`.
pub(crate) proof fn lemma_method_domain_of_dotted(d: Seq<char>, op: Seq<char>)
    requires
        forall|k: int| 0 <= k < d.len() ==> d[k] != '.',
    ensures
        method_domain(d + seq!['.'] + op) == d,
    decreases d.len(),
{
    let m = d + seq!['.'] + op;
    if d.len() == 0 {
        assert(m[0] == '.');
        assert(method_domain(m) =~= d);
    } else {
        lemma_method_domain_of_dotted(d.drop_first(), op);
        assert(m.drop_first() =~= d.drop_first() + seq!['.'] + op);
        assert(method_domain(m) =~= d);
    }
}

/// A method named "`c.domain()`.`op`" is permitted exactly when the set
/// grants `c`, for each of the four capabilities that gate RPC methods.
pub proof fn law_domain_prefix_gates_method(set: CapabilitySet, c: Capability, op: Seq<char>)
    requires
        c == Capability::Schematic || c == Capability::Maestro || c == Capability::Window || c
            == Capability::Cell,
    ensures
        set.spec_permits_method(c.spec_domain() + seq!['.'] + op) == set.spec_permits(c),
{
    reveal_strlit("schematic");
    reveal_strlit("maestro");
    reveal_strlit("window");
    reveal_strlit("cell");
    lemma_method_domain_of_dotted(c.spec_domain(), op);
}

/// A set that holds `Admin` permits every capability and every gated method.
pub proof fn law_admin_permits_everything(set: CapabilitySet, c: Capability, m: Seq<char>)
    requires
        set@.contains(Capability::Admin),
    ensures
        set.spec_permits(c),
        gating_capability(m) is Some ==> set.spec_permits_method(m),
{
}

/// A method outside the gated domains is refused to every set, `Admin` too.
pub proof fn law_ungated_method_refused(set: CapabilitySet, m: Seq<char>)
    requires
        gating_capability(m) is None,
    ensures
        !set.spec_permits_method(m),
{
}

/// Parsing a capability name does not depend on the case of its letters:
/// `from_str(s)` and `from_str` of `s` in small letters agree.
pub proof fn law_from_str_ignores_case(s: Seq<char>)
    ensures
        capability_named(lower_seq(lower_seq(s))) == capability_named(lower_seq(s)),
{
    lemma_lower_idempotent(s);
}

/// The name that `from_str` reads back as each capability: its domain,
/// except for `Admin`, whose domain is `*` and whose name is `admin`.
pub open spec fn capability_name(c: Capability) -> Seq<char> {
    match c {
        Capability::Admin => "admin"@,
        _ => c.spec_domain(),
    }
}

/// Every capability parses back from its name.
pub proof fn law_from_str_reads_name(c: Capability)
    ensures
        capability_named(lower_seq(capability_name(c))) == Some(c),
{
    reveal_strlit("schematic");
    reveal_strlit("maestro");
    reveal_strlit("window");
    reveal_strlit("cell");
    reveal_strlit("simulation");
    reveal_strlit("transaction");
    reveal_strlit("admin");
    assert(lower_seq(capability_name(c)) =~= capability_name(c));
}

/// A list that holds no comma names at most one capability: the one that
/// its text, trimmed, parses to with `Capability::from_str`.
pub proof fn law_single_name_list(s: Seq<char>)
    requires
        forall|k: int| 0 <= k < s.len() ==> s[k] != ',',
    ensures
        listed_capabilities(s) == match capability_named(lower_seq(trim(s))) {
            Some(c) => set![c],
            None => Set::<Capability>::empty(),
        },
{
    lemma_next_piece(s, 0, s.len() as int);
    assert(s.subrange(0, s.len() as int) =~= s);
    let named = capability_named(lower_seq(trim(s)));
    assert forall|c: Capability| listed_capabilities(s).contains(c) <==> named == Some(c) by {
        if listed_capabilities(s).contains(c) {
            let (a, b) = choose|a: int, b: int|
                #[trigger] is_piece(s, ',', a, b) && capability_named(
                    lower_seq(trim(s.subrange(a, b))),
                ) == Some(c);
            assert(a == 0 && b == s.len());
        }
        if named == Some(c) {
            assert(is_piece(s, ',', 0, s.len() as int));
        }
    }
    let expected = match named {
        Some(c) => set![c],
        None => Set::<Capability>::empty(),
    };
    assert(listed_capabilities(s) =~= expected);
}

} // verus!

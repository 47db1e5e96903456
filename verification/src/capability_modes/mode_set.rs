//! A set of filesystem modes in one machine word.

use vstd::prelude::*;
use vstd::string::StringExecFns;
use crate::capability::AccessMode;
use super::{FsMode, MODE_COUNT};

verus! {

/// A set of [`FsMode`]s. Order-independent, duplicate-free, `Copy`.
#[derive(Debug, Clone, Copy, Hash)]
pub struct FsModeSet(u16);

impl View for FsModeSet {
    type V = Set<FsMode>;

    closed spec fn view(&self) -> Set<FsMode> {
        Set::new(|mode: FsMode| self.0 & (1u16 << mode.index()) != 0)
    }
}

/// Setting one bit of a word sets that bit and no other.
proof fn lemma_set_bit(word: u16, i: u16, j: u16)
    requires
        i < 13,
        j < 13,
    ensures
        ((word | (1u16 << i)) & (1u16 << j)) != 0 <==> (i == j || (word & (1u16 << j)) != 0),
        word < 0x2000 ==> (word | (1u16 << i)) < 0x2000,
{
    assert(((word | (1u16 << i)) & (1u16 << j)) != 0 <==> (i == j || (word & (1u16 << j)) != 0))
        by (bit_vector)
        requires
            i < 13,
            j < 13,
    ;
    assert(word < 0x2000 ==> (word | (1u16 << i)) < 0x2000) by (bit_vector)
        requires
            i < 13,
    ;
}

/// A bit is in a union exactly when it is in one of the two.
proof fn lemma_union_bit(a: u16, b: u16, j: u16)
    requires
        j < 13,
    ensures
        ((a | b) & (1u16 << j)) != 0 <==> ((a & (1u16 << j)) != 0 || (b & (1u16 << j)) != 0),
{
    assert(((a | b) & (1u16 << j)) != 0 <==> ((a & (1u16 << j)) != 0 || (b & (1u16 << j)) != 0))
        by (bit_vector);
}

/// Two words of thirteen bits that agree on every bit are one word.
proof fn lemma_word_by_bits(a: u16, b: u16)
    requires
        a < 0x2000,
        b < 0x2000,
        forall|j: u16| j < 13 ==> ((a & (1u16 << j)) != 0 <==> (b & (1u16 << j)) != 0),
    ensures
        a == b,
{
    assert(a == b) by (bit_vector)
        requires
            a < 0x2000,
            b < 0x2000,
            (a & (1u16 << 0u16)) != 0 <==> (b & (1u16 << 0u16)) != 0,
            (a & (1u16 << 1u16)) != 0 <==> (b & (1u16 << 1u16)) != 0,
            (a & (1u16 << 2u16)) != 0 <==> (b & (1u16 << 2u16)) != 0,
            (a & (1u16 << 3u16)) != 0 <==> (b & (1u16 << 3u16)) != 0,
            (a & (1u16 << 4u16)) != 0 <==> (b & (1u16 << 4u16)) != 0,
            (a & (1u16 << 5u16)) != 0 <==> (b & (1u16 << 5u16)) != 0,
            (a & (1u16 << 6u16)) != 0 <==> (b & (1u16 << 6u16)) != 0,
            (a & (1u16 << 7u16)) != 0 <==> (b & (1u16 << 7u16)) != 0,
            (a & (1u16 << 8u16)) != 0 <==> (b & (1u16 << 8u16)) != 0,
            (a & (1u16 << 9u16)) != 0 <==> (b & (1u16 << 9u16)) != 0,
            (a & (1u16 << 10u16)) != 0 <==> (b & (1u16 << 10u16)) != 0,
            (a & (1u16 << 11u16)) != 0 <==> (b & (1u16 << 11u16)) != 0,
            (a & (1u16 << 12u16)) != 0 <==> (b & (1u16 << 12u16)) != 0,
    ;
}

/// Two words of thirteen bits that stand for the same modes are one word.
proof fn lemma_same_modes_same_word(a: FsModeSet, b: FsModeSet)
    requires
        a.0 < 0x2000,
        b.0 < 0x2000,
    ensures
        a.0 == b.0 <==> a@ =~= b@,
{
    if a@ =~= b@ {
        assert forall|j: u16| j < 13 implies ((a.0 & (1u16 << j)) != 0 <==> (b.0 & (1u16 << j))
            != 0) by {
            let mode = super::all_modes()[j as int];
            assert(mode.index() == j);
            assert(a@.contains(mode) <==> b@.contains(mode));
        }
        lemma_word_by_bits(a.0, b.0);
    }
}

/// Every mode stands at its index in the common order, and nowhere else.
pub proof fn lemma_all_modes()
    ensures
        super::all_modes().len() == MODE_COUNT,
        super::all_modes().no_duplicates(),
        forall|mode: FsMode|
            #![trigger mode.index()]
            mode.index() < MODE_COUNT && super::all_modes()[mode.index() as int] == mode,
        forall|mode: FsMode| #[trigger] super::all_modes().contains(mode),
{
    assert forall|mode: FsMode| #[trigger] super::all_modes().contains(mode) by {
        assert(super::all_modes()[mode.index() as int] == mode);
    }
    assert forall|i: int, j: int| 0 <= i < 13 && 0 <= j < 13 && i != j implies super::all_modes()[i]
        != super::all_modes()[j] by {
        assert(super::all_modes()[i].index() == i);
        assert(super::all_modes()[j].index() == j);
    }
}

/// Filtering keeps a sequence free of duplicates.
proof fn lemma_filter_distinct(modes: Seq<FsMode>, keep: spec_fn(FsMode) -> bool)
    requires
        modes.no_duplicates(),
    ensures
        modes.filter(keep).no_duplicates(),
        forall|mode: FsMode|
            modes.filter(keep).contains(mode) <==> (modes.contains(mode) && keep(mode)),
    decreases modes.len(),
{
    reveal(Seq::filter);
    if modes.len() > 0 {
        let rest = modes.drop_last();
        lemma_filter_distinct(rest, keep);
        let last = modes.last();
        assert(modes == rest.push(last));
        assert(!rest.contains(last));
        assert forall|mode: FsMode| modes.contains(mode) <==> (rest.contains(mode) || mode
            == last) by {
            if rest.contains(mode) {
                let i = choose|i: int| 0 <= i < rest.len() && rest[i] == mode;
                assert(modes[i] == mode);
            }
            if mode == last {
                assert(modes[modes.len() - 1] == mode);
            }
        }
        let kept = rest.filter(keep);
        if keep(last) {
            assert(modes.filter(keep) == kept.push(last));
            assert forall|mode: FsMode| kept.push(last).contains(mode) <==> (kept.contains(mode)
                || mode == last) by {
                if kept.contains(mode) {
                    let i = choose|i: int| 0 <= i < kept.len() && kept[i] == mode;
                    assert(kept.push(last)[i] == mode);
                }
                if mode == last {
                    assert(kept.push(last)[kept.len() as int] == mode);
                }
            }
        }
    }
}

/// The ordered listing of a set names each of its modes once.
pub proof fn lemma_in_order(set: Set<FsMode>)
    ensures
        super::in_order(set).no_duplicates(),
        forall|mode: FsMode| super::in_order(set).contains(mode) <==> set.contains(mode),
        super::in_order(set).to_set() =~= set,
        set.finite(),
        super::in_order(set).len() == set.len(),
{
    lemma_all_modes();
    lemma_filter_distinct(super::all_modes(), |mode: FsMode| set.contains(mode));
    let listed = super::in_order(set);
    assert(listed.to_set() =~= set);
    listed.unique_seq_to_set();
}

/// The text of `names[from..]` joined by a comma and a space.
pub open spec fn joined_names(modes: Seq<FsMode>) -> Seq<char>
    decreases modes.len(),
{
    if modes.len() == 0 {
        Seq::empty()
    } else if modes.len() == 1 {
        modes[0].name()
    } else {
        joined_names(modes.drop_last()) + ", "@ + modes.last().name()
    }
}

impl FsModeSet {
    #[verifier::type_invariant]
    spec fn thirteen_bits(self) -> bool {
        self.0 < 0x2000
    }

    /// The empty set. A grant of nothing grants nothing.
    #[must_use]
    pub fn empty() -> (set: Self)
        ensures
            set@ == Set::<FsMode>::empty(),
    {
        let set = FsModeSet(0);
        assert forall|mode: FsMode| !set@.contains(mode) by {
            let bit = 1u16 << mode.index();
            assert(0u16 & bit == 0) by (bit_vector);
        }
        set
    }

    /// A set built from a slice.
    #[must_use]
    pub fn of(modes: &[FsMode]) -> (set: Self)
        ensures
            set@ == modes@.to_set(),
    {
        let mut set = Self::empty();
        let mut i: usize = 0;
        assert(modes@.take(0).to_set() =~= Set::<FsMode>::empty());
        while i < modes.len()
            invariant
                i <= modes.len(),
                set@ == modes@.take(i as int).to_set(),
            decreases modes.len() - i,
        {
            let ghost before = modes@.take(i as int);
            set.insert(modes[i]);
            i += 1;
            assert(modes@.take(i as int) =~= before.push(modes@[i - 1]));
            assert(before.push(modes@[i - 1]).to_set() =~= before.to_set().insert(modes@[i - 1]))
                by {
                lemma_push_to_set(before, modes@[i - 1]);
            }
        }
        assert(modes@.take(i as int) =~= modes@);
        set
    }

    /// This set plus `mode`.
    #[must_use]
    pub fn with(self, mode: FsMode) -> (set: Self)
        ensures
            set@ == self@.insert(mode),
    {
        let mut set = self;
        set.insert(mode);
        set
    }

    /// Add `mode` in place.
    pub fn insert(&mut self, mode: FsMode)
        ensures
            final(self)@ == old(self)@.insert(mode),
    {
        proof {
            use_type_invariant(&*self);
            lemma_set_bit(self.0, mode.index(), 0);
        }
        let ghost before = *self;
        let bit: u16 = mode.bit();
        *self = FsModeSet(self.0 | bit);
        assert(self@ =~= before@.insert(mode)) by {
            assert forall|other: FsMode| self@.contains(other) <==> before@.insert(mode).contains(
                other,
            ) by {
                lemma_set_bit(before.0, mode.index(), other.index());
                lemma_all_modes();
                assert(mode.index() == other.index() ==> mode == other);
            }
        }
    }

    /// Whether `mode` is in this set.
    #[must_use]
    pub fn contains(self, mode: FsMode) -> (found: bool)
        ensures
            found == self@.contains(mode),
    {
        self.0 & mode.bit() != 0
    }

    /// Whether this set names nothing.
    #[must_use]
    pub fn is_empty(self) -> (empty: bool)
        ensures
            empty == (self@ == Set::<FsMode>::empty()),
    {
        let none = FsModeSet::empty();
        proof {
            use_type_invariant(&self);
            use_type_invariant(&none);
            lemma_same_modes_same_word(self, none);
        }
        self.0 == none.0
    }

    /// The union of two sets.
    #[must_use]
    pub fn union(self, other: Self) -> (set: Self)
        ensures
            set@ == self@.union(other@),
    {
        proof {
            use_type_invariant(&self);
            use_type_invariant(&other);
            let a = self.0;
            let b = other.0;
            assert(a < 0x2000 && b < 0x2000 ==> (a | b) < 0x2000) by (bit_vector);
        }
        let set = FsModeSet(self.0 | other.0);
        assert(set@ =~= self@.union(other@)) by {
            assert forall|mode: FsMode| set@.contains(mode) <==> self@.union(other@).contains(
                mode,
            ) by {
                lemma_union_bit(self.0, other.0, mode.index());
            }
        }
        set
    }

    /// The modes in this set, in [`FsMode::ALL`] order.
    pub fn iter(self) -> (modes: Vec<FsMode>)
        ensures
            modes@ == super::in_order(self@),
            modes@.no_duplicates(),
            modes@.to_set() == self@,
    {
        let mut modes: Vec<FsMode> = Vec::new();
        let mut i: usize = 0;
        let ghost keep = |mode: FsMode| self@.contains(mode);
        proof {
            reveal(Seq::filter);
            assert(super::all_modes().take(0).filter(keep) =~= Seq::empty());
        }
        while i < MODE_COUNT
            invariant
                i <= MODE_COUNT,
                keep == (|mode: FsMode| self@.contains(mode)),
                modes@ == super::all_modes().take(i as int).filter(keep),
            decreases MODE_COUNT - i,
        {
            let mode = FsMode::ALL[i];
            proof {
                super::all_modes().take(i as int).lemma_filter_push(mode, keep);
                assert(super::all_modes().take(i + 1) =~= super::all_modes().take(i as int).push(mode));
            }
            if self.contains(mode) {
                modes.push(mode);
            }
            i += 1;
        }
        proof {
            assert(super::all_modes().take(13) =~= super::all_modes());
            lemma_in_order(self@);
        }
        modes
    }

    /// How many modes this set names.
    #[must_use]
    pub fn len(self) -> (count: usize)
        ensures
            count == self@.len(),
    {
        let modes = self.iter();
        proof {
            lemma_in_order(self@);
        }
        modes.len()
    }

    /// The modes a coarse read stands for.
    pub open spec fn coarse_read() -> Set<FsMode> {
        set![FsMode::ReadContents, FsMode::ReadDir, FsMode::ReadMetadata, FsMode::Execute]
    }

    /// The modes a coarse write stands for.
    pub open spec fn coarse_write() -> Set<FsMode> {
        set![
            FsMode::Write,
            FsMode::Append,
            FsMode::Create,
            FsMode::Truncate,
            FsMode::RemoveFile,
            FsMode::RemoveDir,
            FsMode::Rename,
        ]
    }

    /// What the coarse [`AccessMode`] grants mean in this vocabulary.
    ///
    /// On Linux a coarse write also creates directories, symlinks, sockets,
    /// fifos and device nodes, for which this vocabulary has no mode: it is
    /// wider there than the set returned here.
    #[must_use]
    pub fn describes_access_mode(access: AccessMode) -> (set: Self)
        ensures
            set@ == (match access {
                AccessMode::Read => Self::coarse_read(),
                AccessMode::Write => Self::coarse_write(),
                AccessMode::ReadWrite => Self::coarse_read().union(Self::coarse_write()),
            }),
            forall|mode: FsMode| #[trigger]
                set@.contains(mode) <==> match mode {
                    FsMode::ReadContents
                    | FsMode::ReadDir
                    | FsMode::ReadMetadata
                    | FsMode::Execute => !(access is Write),
                    FsMode::UnixSocketConnect | FsMode::AtomicWrite => false,
                    _ => !(access is Read),
                },
    {
        let read = Self::empty().with(FsMode::ReadContents).with(FsMode::ReadDir).with(
            FsMode::ReadMetadata,
        ).with(FsMode::Execute);
        let write = Self::empty().with(FsMode::Write).with(FsMode::Append).with(
            FsMode::Create,
        ).with(FsMode::Truncate).with(FsMode::RemoveFile).with(FsMode::RemoveDir).with(
            FsMode::Rename,
        );
        match access {
            AccessMode::Read => read,
            AccessMode::Write => write,
            AccessMode::ReadWrite => read.union(write),
        }
    }

    /// The set as text: its names in order, between braces.
    pub fn to_text(self) -> (text: String)
        ensures
            text@ == "{"@ + joined_names(super::in_order(self@)) + "}"@,
    {
        let modes = self.iter();
        let mut text = "{".to_string();
        let mut i: usize = 0;
        proof {
            assert(joined_names(modes@.take(0)) =~= Seq::<char>::empty());
            assert("{"@ + Seq::<char>::empty() =~= "{"@);
        }
        while i < modes.len()
            invariant
                i <= modes.len(),
                text@ == "{"@ + joined_names(modes@.take(i as int)),
            decreases modes.len() - i,
        {
            if i > 0 {
                text.append(", ");
            }
            text.append(modes[i].as_str());
            i += 1;
            proof {
                let taken = modes@.take(i as int);
                assert(taken.drop_last() =~= modes@.take(i - 1));
                if i == 1 {
                    assert(joined_names(modes@.take(0)) =~= Seq::<char>::empty());
                    assert(text@ =~= "{"@ + taken[0].name());
                } else {
                    assert(text@ =~= "{"@ + (joined_names(taken.drop_last()) + ", "@
                        + taken.last().name()));
                }
            }
        }
        assert(modes@.take(i as int) =~= modes@);
        text.append("}");
        text
    }
}

/// Adding an element to a sequence adds it to the sequence's set.
proof fn lemma_push_to_set(modes: Seq<FsMode>, mode: FsMode)
    ensures
        modes.push(mode).to_set() =~= modes.to_set().insert(mode),
{
    assert forall|other: FsMode| modes.push(mode).to_set().contains(other)
        <==> modes.to_set().insert(mode).contains(other) by {
        if modes.contains(other) {
            let i = choose|i: int| 0 <= i < modes.len() && modes[i] == other;
            assert(modes.push(mode)[i] == other);
        }
        if mode == other {
            assert(modes.push(mode)[modes.len() as int] == other);
        }
    }
}

impl PartialEq for FsModeSet {
    fn eq(&self, other: &Self) -> (same: bool) {
        proof {
            use_type_invariant(self);
            use_type_invariant(other);
            lemma_same_modes_same_word(*self, *other);
        }
        self.0 == other.0
    }
}

impl vstd::std_specs::cmp::PartialEqSpecImpl for FsModeSet {
    open spec fn obeys_eq_spec() -> bool {
        true
    }

    open spec fn eq_spec(&self, other: &Self) -> bool {
        self@ == other@
    }
}

impl Eq for FsModeSet {}

impl Default for FsModeSet {
    fn default() -> (set: Self)
        ensures
            set@ == Set::<FsMode>::empty(),
    {
        Self::empty()
    }
}

} // verus!

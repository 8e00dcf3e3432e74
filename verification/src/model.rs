//! The parameter model: a small copyable snapshot of every user-adjustable
//! parameter, the schema that gives each one its slot and bounds, and the
//! diff that tells two snapshots apart.

use vstd::prelude::*;
use crate::value::{clamp, clamped, ordered_bounds};

verus! {

/// A parameter's slot together with its value.
pub type ParameterMapping = (usize, u32);

/// How many parameters a model holds.
pub const PARAMETER_COUNT: usize = 5;

/// Slot of the filter cutoff dip.
pub const CUTOFF_DIP_SLOT: usize = 2;

/// Slot of the oscillator LFO depth.
pub const LFO_DEPTH_SLOT: usize = 3;

/// Slot of the filter LFO depth.
pub const FILTER_LFO_DEPTH_SLOT: usize = 4;

/// Slot of the horizontal wonk axis.
pub const WONK_X_SLOT: usize = 5;

/// Slot of the vertical wonk axis.
pub const WONK_Y_SLOT: usize = 6;

/// Host-facing index of the filter cutoff dip.
pub const CUTOFF_DIP_INDEX: i32 = 0;

/// Host-facing index of the oscillator LFO depth.
pub const LFO_DEPTH_INDEX: i32 = 1;

/// Host-facing index of the filter LFO depth.
pub const FILTER_LFO_DEPTH_INDEX: i32 = 2;

/// Host-facing index of the horizontal wonk axis.
pub const WONK_X_INDEX: i32 = 3;

/// Host-facing index of the vertical wonk axis.
pub const WONK_Y_INDEX: i32 = 4;

/// The pattern of 0.0.
pub const ZERO: u32 = 0x0000_0000;

/// The pattern of 1.0.
pub const ONE: u32 = 0x3F80_0000;

/// The pattern of -1.0.
pub const MINUS_ONE: u32 = 0xBF80_0000;

/// The pattern of 5.0.
pub const FIVE: u32 = 0x40A0_0000;

/// The pattern of 20.0.
pub const TWENTY: u32 = 0x41A0_0000;

/// The pattern of 25.0.
pub const TWENTY_FIVE: u32 = 0x41C8_0000;

/// The pattern of 50.0.
pub const FIFTY: u32 = 0x4248_0000;

/// The pattern of 100.0.
pub const ONE_HUNDRED: u32 = 0x42C8_0000;

/// The pattern of 900.0.
pub const NINE_HUNDRED: u32 = 0x4461_0000;

/// The current value of every parameter, each held as a bit pattern.
#[derive(Copy, Clone, Debug, PartialEq, Eq)]
pub struct Model {
    /// How far the envelope pulls the filter cutoff down.
    pub cutoff_dip: u32,
    /// The feedback amounts, horizontal then vertical.
    pub wonk: (u32, u32),
    /// Depth of the LFO on the oscillator frequency.
    pub lfo_depth: u32,
    /// Depth of the LFO on the filter cutoff.
    pub filter_lfo_depth: u32,
}

impl Default for Model {
    fn default() -> (m: Model)
        ensures
            m == Model::spec_default(),
    {
        Model {
            cutoff_dip: ONE_HUNDRED,
            wonk: (ZERO, ZERO),
            lfo_depth: FIVE,
            filter_lfo_depth: FIFTY,
        }
    }
}

/// One entry of the schema: the slot a parameter occupies and the bounds its
/// value is held to.
#[derive(Copy, Clone, Debug, PartialEq, Eq)]
pub struct ParameterDef {
    /// The engine slot of the parameter.
    pub parameter_slot: usize,
    /// The least value the parameter takes.
    pub min: u32,
    /// The greatest value the parameter takes.
    pub max: u32,
}

impl ParameterDef {
    /// An entry for the parameter at `parameter_slot`, held to `[min, max]`.
    pub fn new(parameter_slot: usize, min: u32, max: u32) -> (d: Self)
        ensures
            d == (ParameterDef { parameter_slot, min, max }),
    {
        ParameterDef { parameter_slot, min, max }
    }

    /// The bounds can bracket a value.
    pub open spec fn wf(self) -> bool {
        ordered_bounds(self.min, self.max)
    }
}

impl Model {
    /// The model every plugin instance starts from.
    pub open spec fn spec_default() -> Model {
        Model {
            cutoff_dip: ONE_HUNDRED,
            wonk: (ZERO, ZERO),
            lfo_depth: FIVE,
            filter_lfo_depth: FIFTY,
        }
    }

    /// The schema, in canonical order.
    pub open spec fn spec_parameter_defs() -> Seq<ParameterDef> {
        seq![
            ParameterDef { parameter_slot: CUTOFF_DIP_SLOT, min: TWENTY_FIVE, max: NINE_HUNDRED },
            ParameterDef { parameter_slot: LFO_DEPTH_SLOT, min: ZERO, max: TWENTY },
            ParameterDef { parameter_slot: FILTER_LFO_DEPTH_SLOT, min: ZERO, max: ONE_HUNDRED },
            ParameterDef { parameter_slot: WONK_X_SLOT, min: MINUS_ONE, max: ONE },
            ParameterDef { parameter_slot: WONK_Y_SLOT, min: MINUS_ONE, max: ONE },
        ]
    }

    /// The value of the parameter at a position of the schema.
    pub open spec fn value_at(self, index: int) -> u32 {
        if index == CUTOFF_DIP_INDEX {
            self.cutoff_dip
        } else if index == LFO_DEPTH_INDEX {
            self.lfo_depth
        } else if index == FILTER_LFO_DEPTH_INDEX {
            self.filter_lfo_depth
        } else if index == WONK_X_INDEX {
            self.wonk.0
        } else {
            self.wonk.1
        }
    }

    /// The model with the parameter at a position of the schema replaced.
    pub open spec fn with_value_at(self, index: int, value: u32) -> Model {
        if index == CUTOFF_DIP_INDEX {
            Model { cutoff_dip: value, ..self }
        } else if index == LFO_DEPTH_INDEX {
            Model { lfo_depth: value, ..self }
        } else if index == FILTER_LFO_DEPTH_INDEX {
            Model { filter_lfo_depth: value, ..self }
        } else if index == WONK_X_INDEX {
            Model { wonk: (value, self.wonk.1), ..self }
        } else if index == WONK_Y_INDEX {
            Model { wonk: (self.wonk.0, value), ..self }
        } else {
            self
        }
    }

    /// Every parameter with its slot: position `i` pairs the slot of the
    /// `i`-th schema entry with this model's value for it.
    pub open spec fn spec_parameter_map(self) -> Seq<ParameterMapping> {
        Seq::new(
            PARAMETER_COUNT as nat,
            |i: int| (Self::spec_parameter_defs()[i].parameter_slot, self.value_at(i)),
        )
    }

    /// A value pulled into the bounds of the schema entry at `index`.
    pub open spec fn bounded(index: int, value: u32) -> u32 {
        clamped(
            value,
            Self::spec_parameter_defs()[index].min,
            Self::spec_parameter_defs()[index].max,
        )
    }

    /// The changes that turn `o` into `self`.
    pub open spec fn spec_diff(self, o: Model) -> Seq<ParameterMapping> {
        changed_prefix(self.spec_parameter_map(), o.spec_parameter_map(), PARAMETER_COUNT as nat)
    }

    /// How many parameters have different bit patterns in the two models.
    pub open spec fn differing_slots(self, o: Model) -> nat {
        differing_prefix(self.spec_parameter_map(), o.spec_parameter_map(), PARAMETER_COUNT as nat)
    }

    /// The schema: one entry for each parameter, in canonical order.
    pub fn parameter_defs() -> (defs: [ParameterDef; PARAMETER_COUNT])
        ensures
            defs@ == Self::spec_parameter_defs(),
            forall|i: int| 0 <= i < PARAMETER_COUNT ==> (#[trigger] defs@[i]).wf(),
    {
        let defs = [
            ParameterDef::new(CUTOFF_DIP_SLOT, TWENTY_FIVE, NINE_HUNDRED),
            ParameterDef::new(LFO_DEPTH_SLOT, ZERO, TWENTY),
            ParameterDef::new(FILTER_LFO_DEPTH_SLOT, ZERO, ONE_HUNDRED),
            ParameterDef::new(WONK_X_SLOT, MINUS_ONE, ONE),
            ParameterDef::new(WONK_Y_SLOT, MINUS_ONE, ONE),
        ];
        assert(defs@ =~= Self::spec_parameter_defs());
        defs
    }

    /// Every parameter with its slot, in canonical order. The slots are
    /// those of the schema, whatever the model holds.
    pub fn parameter_map(&self) -> (map: [ParameterMapping; PARAMETER_COUNT])
        ensures
            map@ == self.spec_parameter_map(),
    {
        let map = [
            (CUTOFF_DIP_SLOT, self.cutoff_dip),
            (LFO_DEPTH_SLOT, self.lfo_depth),
            (FILTER_LFO_DEPTH_SLOT, self.filter_lfo_depth),
            (WONK_X_SLOT, self.wonk.0),
            (WONK_Y_SLOT, self.wonk.1),
        ];
        assert(map@ =~= self.spec_parameter_map());
        map
    }

    /// Every parameter with its slot, each value handed out for writing.
    /// Whatever is written through entry `i` becomes the model's value at
    /// position `i`.
    pub fn parameter_map_mut(&mut self) -> (map: [(usize, &mut u32); PARAMETER_COUNT])
        ensures
            forall|i: int|
                0 <= i < PARAMETER_COUNT ==> (#[trigger] map@[i]).0
                    == Self::spec_parameter_defs()[i].parameter_slot,
            forall|i: int|
                0 <= i < PARAMETER_COUNT ==> *(#[trigger] map@[i]).1 == old(self).value_at(i),
            forall|i: int|
                0 <= i < PARAMETER_COUNT ==> *final((#[trigger] map@[i]).1)
                    == final(self).value_at(i),
    {
        [
            (CUTOFF_DIP_SLOT, &mut self.cutoff_dip),
            (LFO_DEPTH_SLOT, &mut self.lfo_depth),
            (FILTER_LFO_DEPTH_SLOT, &mut self.filter_lfo_depth),
            (WONK_X_SLOT, &mut self.wonk.0),
            (WONK_Y_SLOT, &mut self.wonk.1),
        ]
    }

    /// Every parameter with its slot, in canonical order.
    pub fn parameter_iter(self) -> (items: Vec<ParameterMapping>)
        ensures
            items@ == self.spec_parameter_map(),
    {
        let map = self.parameter_map();
        let mut items: Vec<ParameterMapping> = Vec::new();
        let mut i: usize = 0;
        while i < PARAMETER_COUNT
            invariant
                i <= PARAMETER_COUNT,
                map@ == self.spec_parameter_map(),
                items@ == map@.take(i as int),
            decreases PARAMETER_COUNT - i,
        {
            items.push(map[i]);
            assert(items@ =~= map@.take(i + 1));
            i = i + 1;
        }
        assert(map@.take(PARAMETER_COUNT as int) =~= map@);
        items
    }

    /// The parameters of `self` whose bit pattern is not the one `o` holds,
    /// each with its slot, in canonical order.
    pub fn diff_with(self, o: Model) -> (changes: Vec<ParameterMapping>)
        ensures
            changes@ == self.spec_diff(o),
    {
        let current = self.parameter_map();
        let previous = o.parameter_map();
        let mut changes: Vec<ParameterMapping> = Vec::new();
        let mut i: usize = 0;
        while i < PARAMETER_COUNT
            invariant
                i <= PARAMETER_COUNT,
                current@ == self.spec_parameter_map(),
                previous@ == o.spec_parameter_map(),
                changes@ == changed_prefix(current@, previous@, i as nat),
            decreases PARAMETER_COUNT - i,
        {
            if current[i].1 != previous[i].1 {
                changes.push(current[i]);
            }
            i = i + 1;
        }
        changes
    }

    /// Writes the diff of [`Model::diff_with`] to the front of `changes`
    /// without allocating, and returns how many entries it wrote. The rest
    /// of `changes` is left as it was.
    pub fn diff_into(
        self,
        o: Model,
        changes: &mut [ParameterMapping; PARAMETER_COUNT],
    ) -> (count: usize)
        ensures
            count <= PARAMETER_COUNT,
            count == self.spec_diff(o).len(),
            final(changes)@.take(count as int) == self.spec_diff(o),
            forall|i: int|
                count <= i < PARAMETER_COUNT ==> final(changes)@[i] == old(changes)@[i],
    {
        let current = self.parameter_map();
        let previous = o.parameter_map();
        let mut count: usize = 0;
        let mut i: usize = 0;
        while i < PARAMETER_COUNT
            invariant
                count <= i <= PARAMETER_COUNT,
                current@ == self.spec_parameter_map(),
                previous@ == o.spec_parameter_map(),
                changes@.take(count as int) == changed_prefix(current@, previous@, i as nat),
                forall|k: int|
                    count <= k < PARAMETER_COUNT ==> changes@[k] == old(changes)@[k],
            decreases PARAMETER_COUNT - i,
        {
            if current[i].1 != previous[i].1 {
                let ghost before = changes@;
                changes[count] = current[i];
                assert(changes@.take(count + 1) =~= before.take(count as int).push(
                    current@[i as int],
                ));
                count = count + 1;
            }
            i = i + 1;
        }
        count
    }

    /// The value at a host-facing index, or 0.0 where the index names no
    /// parameter.
    pub fn get_parameter(&self, index: i32) -> (value: u32)
        ensures
            0 <= index < PARAMETER_COUNT ==> value == self.value_at(index as int),
            !(0 <= index < PARAMETER_COUNT) ==> value == ZERO,
    {
        if index == CUTOFF_DIP_INDEX {
            self.cutoff_dip
        } else if index == LFO_DEPTH_INDEX {
            self.lfo_depth
        } else if index == FILTER_LFO_DEPTH_INDEX {
            self.filter_lfo_depth
        } else if index == WONK_X_INDEX {
            self.wonk.0
        } else if index == WONK_Y_INDEX {
            self.wonk.1
        } else {
            ZERO
        }
    }

    /// Stores a value at a host-facing index, pulled into the bounds the
    /// schema gives that parameter. An index that names no parameter changes
    /// nothing.
    pub fn set_parameter(&mut self, index: i32, val: u32)
        ensures
            0 <= index < PARAMETER_COUNT ==> *final(self) == old(self).with_value_at(
                index as int,
                Self::bounded(index as int, val),
            ),
            !(0 <= index < PARAMETER_COUNT) ==> *final(self) == *old(self),
    {
        if 0 <= index && index < PARAMETER_COUNT as i32 {
            let defs = Self::parameter_defs();
            let def = defs[index as usize];
            assert(def.wf());
            let value = clamp(val, def.min, def.max);
            if index == CUTOFF_DIP_INDEX {
                self.cutoff_dip = value;
            } else if index == LFO_DEPTH_INDEX {
                self.lfo_depth = value;
            } else if index == FILTER_LFO_DEPTH_INDEX {
                self.filter_lfo_depth = value;
            } else if index == WONK_X_INDEX {
                self.wonk.0 = value;
            } else {
                self.wonk.1 = value;
            }
        }
    }

    /// Whether two models agree in every bit of every parameter.
    pub fn same_bits(&self, o: &Model) -> (same: bool)
        ensures
            same == (*self == *o),
    {
        self.cutoff_dip == o.cutoff_dip && self.wonk.0 == o.wonk.0 && self.wonk.1 == o.wonk.1
            && self.lfo_depth == o.lfo_depth && self.filter_lfo_depth == o.filter_lfo_depth
    }
}

/// Among the first `n` positions, the entries of `current` whose value is not
/// the value `previous` has at the same position, in order of position.
pub open spec fn changed_prefix(
    current: Seq<ParameterMapping>,
    previous: Seq<ParameterMapping>,
    n: nat,
) -> Seq<ParameterMapping>
    decreases n,
{
    if n == 0 {
        Seq::empty()
    } else {
        let before = changed_prefix(current, previous, (n - 1) as nat);
        if current[n - 1].1 != previous[n - 1].1 {
            before.push(current[n - 1])
        } else {
            before
        }
    }
}

/// Among the first `n` positions, how many hold different values in the two
/// sequences.
pub open spec fn differing_prefix(
    current: Seq<ParameterMapping>,
    previous: Seq<ParameterMapping>,
    n: nat,
) -> nat
    decreases n,
{
    if n == 0 {
        0
    } else {
        let before = differing_prefix(current, previous, (n - 1) as nat);
        if current[n - 1].1 != previous[n - 1].1 {
            before + 1
        } else {
            before
        }
    }
}

/// Slots grow strictly from each position to the next.
pub open spec fn ascending_slots(entries: Seq<ParameterMapping>) -> bool {
    forall|i: int, j: int| 0 <= i < j < entries.len() ==> entries[i].0 < entries[j].0
}

/// `entry` is what `current` holds at one of the first `n` positions, and
/// `previous` holds another value there.
pub open spec fn is_change(
    current: Seq<ParameterMapping>,
    previous: Seq<ParameterMapping>,
    n: nat,
    entry: ParameterMapping,
) -> bool {
    exists|i: int| 0 <= i < n && #[trigger] current[i] == entry && current[i].1 != previous[i].1
}

/// What the changes among the first `n` positions are: as many entries as
/// there are differing positions, each one an entry of `current` at a
/// differing position, every differing position present, and slots ascending.
pub proof fn lemma_changed_prefix(
    current: Seq<ParameterMapping>,
    previous: Seq<ParameterMapping>,
    n: nat,
)
    requires
        n <= current.len(),
        n <= previous.len(),
        ascending_slots(current),
    ensures
        changed_prefix(current, previous, n).len() == differing_prefix(current, previous, n),
        forall|j: int|
            0 <= j < changed_prefix(current, previous, n).len() ==> is_change(
                current,
                previous,
                n,
                #[trigger] changed_prefix(current, previous, n)[j],
            ),
        forall|i: int|
            0 <= i < n && current[i].1 != previous[i].1 ==> changed_prefix(
                current,
                previous,
                n,
            ).contains(#[trigger] current[i]),
        ascending_slots(changed_prefix(current, previous, n)),
    decreases n,
{
    if n > 0 {
        let before = changed_prefix(current, previous, (n - 1) as nat);
        let all = changed_prefix(current, previous, n);
        lemma_changed_prefix(current, previous, (n - 1) as nat);
        assert forall|j: int| 0 <= j < before.len() implies is_change(
            current,
            previous,
            n,
            #[trigger] before[j],
        ) by {
            assert(is_change(current, previous, (n - 1) as nat, before[j]));
            let i = choose|i: int|
                0 <= i < n - 1 && #[trigger] current[i] == before[j] && current[i].1
                    != previous[i].1;
            assert(current[i] == before[j]);
        }
        if current[n - 1].1 != previous[n - 1].1 {
            assert(all == before.push(current[n - 1]));
            assert(is_change(current, previous, n, current[n - 1]));
            assert forall|i: int|
                0 <= i < n && current[i].1 != previous[i].1 implies all.contains(
                #[trigger] current[i],
            ) by {
                if i < n - 1 {
                    let j = choose|j: int| 0 <= j < before.len() && before[j] == current[i];
                    assert(all[j] == current[i]);
                } else {
                    assert(all[before.len() as int] == current[i]);
                }
            }
            assert forall|j: int, k: int| 0 <= j < k < all.len() implies all[j].0 < all[k].0 by {
                if k == before.len() {
                    assert(is_change(current, previous, (n - 1) as nat, before[j]));
                    let i = choose|i: int|
                        0 <= i < n - 1 && #[trigger] current[i] == before[j] && current[i].1
                            != previous[i].1;
                    assert(current[i].0 < current[n - 1].0);
                }
            }
        } else {
            assert(all == before);
        }
    }
}

/// A sequence compared with itself has no changes in any prefix.
pub proof fn lemma_unchanged_prefix_is_empty(entries: Seq<ParameterMapping>, n: nat)
    ensures
        changed_prefix(entries, entries, n) == Seq::<ParameterMapping>::empty(),
    decreases n,
{
    if n > 0 {
        lemma_unchanged_prefix_is_empty(entries, (n - 1) as nat);
    }
}

/// Two sequences with the same slots change in the same positions whichever
/// of them is taken as current: the two lists of changes have the same length
/// and the same slots.
pub proof fn lemma_changed_prefix_mirrors(
    current: Seq<ParameterMapping>,
    previous: Seq<ParameterMapping>,
    n: nat,
)
    requires
        n <= current.len(),
        n <= previous.len(),
        forall|i: int| 0 <= i < n ==> current[i].0 == previous[i].0,
    ensures
        changed_prefix(current, previous, n).len() == changed_prefix(previous, current, n).len(),
        forall|j: int|
            0 <= j < changed_prefix(current, previous, n).len() ==> changed_prefix(
                current,
                previous,
                n,
            )[j].0 == changed_prefix(previous, current, n)[j].0,
    decreases n,
{
    if n > 0 {
        lemma_changed_prefix_mirrors(current, previous, (n - 1) as nat);
    }
}

/// The slot at each position is the same for every model.
pub proof fn lemma_slot_order_is_fixed(a: Model, b: Model)
    ensures
        forall|i: int|
            0 <= i < PARAMETER_COUNT ==> a.spec_parameter_map()[i].0 == b.spec_parameter_map()[i].0,
        forall|i: int|
            0 <= i < PARAMETER_COUNT ==> a.spec_parameter_map()[i].0
                == Model::spec_parameter_defs()[i].parameter_slot,
        ascending_slots(a.spec_parameter_map()),
{
}

/// Which model comes first decides the values of a diff and nothing else:
/// the diff of `a` against `b` and the diff of `b` against `a` have the same
/// length and name the same slots.
pub proof fn lemma_diff_order_changes_values_only(a: Model, b: Model)
    ensures
        a.spec_diff(b).len() == b.spec_diff(a).len(),
        forall|j: int| 0 <= j < a.spec_diff(b).len() ==> a.spec_diff(b)[j].0 == b.spec_diff(a)[j].0,
{
    lemma_changed_prefix_mirrors(
        a.spec_parameter_map(),
        b.spec_parameter_map(),
        PARAMETER_COUNT as nat,
    );
}

/// A model differs from itself nowhere: the diff of a model with itself is
/// empty.
pub proof fn lemma_diff_with_self_is_empty(m: Model)
    ensures
        m.spec_diff(m) == Seq::<ParameterMapping>::empty(),
{
    lemma_unchanged_prefix_is_empty(m.spec_parameter_map(), PARAMETER_COUNT as nat);
}

/// For two models that differ in exactly `k` parameters by bit pattern, the
/// diff has exactly `k` entries; each entry is the slot and value that the
/// first model holds for a differing parameter; every differing parameter
/// has its entry; and the entries come in ascending slot order.
pub proof fn lemma_diff_lists_differing_slots(a: Model, b: Model)
    ensures
        a.spec_diff(b).len() == a.differing_slots(b),
        forall|j: int|
            0 <= j < a.spec_diff(b).len() ==> is_change(
                a.spec_parameter_map(),
                b.spec_parameter_map(),
                PARAMETER_COUNT as nat,
                #[trigger] a.spec_diff(b)[j],
            ),
        forall|i: int|
            0 <= i < PARAMETER_COUNT && a.value_at(i) != b.value_at(i) ==> a.spec_diff(b).contains(
                #[trigger] a.spec_parameter_map()[i],
            ),
        ascending_slots(a.spec_diff(b)),
{
    let current = a.spec_parameter_map();
    let previous = b.spec_parameter_map();
    assert(ascending_slots(current));
    lemma_changed_prefix(current, previous, PARAMETER_COUNT as nat);
    assert forall|i: int|
        0 <= i < PARAMETER_COUNT && a.value_at(i) != b.value_at(i) implies a.spec_diff(b).contains(
        #[trigger] a.spec_parameter_map()[i],
    ) by {
        assert(current[i].1 != previous[i].1);
    }
}

} // verus!

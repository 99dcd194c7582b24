//! The species reference table: per-species numeric attributes read from a
//! fixed binary layout of 176-byte entries. The table's bytes come from the
//! caller; only the layout and the form lookup live here.
use vstd::prelude::*;

verus! {

/// Bytes per table entry.
pub const ENTRY_SIZE: usize = 176;

/// The attributes of one species (or one of its alternate forms).
#[derive(PartialEq, Eq, Debug, Copy, Clone)]
pub struct Mon {
    pub hp: u8,
    pub atk: u8,
    pub def: u8,
    pub spe: u8,
    pub spa: u8,
    pub spd: u8,
    /// Held items, first and second slot.
    pub item: (u16, u16),
    pub gender_ratio: u8,
    pub ability_1: u16,
    pub ability_2: u16,
    pub ability_hidden: u16,
    pub form_stat_index: u16,
    pub form_count: u8,
    pub included: bool,
}

/// The three ability slots of a species.
#[derive(PartialEq, Eq, Structural, Debug, Copy, Clone)]
pub struct Abilities(pub u16, pub u16, pub u16);

/// The entry one 176-byte chunk of the table holds.
pub open spec fn spec_mon_from_bytes(buf: Seq<u8>) -> Mon {
    Mon {
        hp: buf[0],
        atk: buf[1],
        def: buf[2],
        spe: buf[3],
        spa: buf[4],
        spd: buf[5],
        item: (buf[12] as u16, buf[14] as u16),
        gender_ratio: buf[18],
        ability_1: ((buf[25] as u16) << 8u16) | (buf[24] as u16),
        ability_2: ((buf[27] as u16) << 8u16) | (buf[26] as u16),
        ability_hidden: ((buf[29] as u16) << 8u16) | (buf[28] as u16),
        form_stat_index: ((buf[31] as u16) << 8u16) | (buf[30] as u16),
        form_count: buf[32],
        included: ((buf[33] >> 6u8) & 1) == 1,
    }
}

impl Mon {
    /// Builds an entry from its attributes.
    pub fn new(
        hp: u8,
        atk: u8,
        def: u8,
        spe: u8,
        spa: u8,
        spd: u8,
        item: (u16, u16),
        gender_ratio: u8,
        ability_1: u16,
        ability_2: u16,
        ability_hidden: u16,
        form_stat_index: u16,
        form_count: u8,
        included: bool,
    ) -> (r: Self)
        ensures
            r == (Mon {
                hp,
                atk,
                def,
                spe,
                spa,
                spd,
                item,
                gender_ratio,
                ability_1,
                ability_2,
                ability_hidden,
                form_stat_index,
                form_count,
                included,
            }),
    {
        Mon {
            hp,
            atk,
            def,
            spe,
            spa,
            spd,
            item,
            gender_ratio,
            ability_1,
            ability_2,
            ability_hidden,
            form_stat_index,
            form_count,
            included,
        }
    }

    /// Reads one entry from its 176-byte chunk.
    pub fn from_bytes(buf: &[u8; 176]) -> (r: Self)
        ensures
            r == spec_mon_from_bytes(buf@),
    {
        Mon {
            hp: buf[0],
            atk: buf[1],
            def: buf[2],
            spe: buf[3],
            spa: buf[4],
            spd: buf[5],
            item: (buf[12] as u16, buf[14] as u16),
            gender_ratio: buf[18],
            ability_1: ((buf[25] as u16) << 8) | buf[24] as u16,
            ability_2: ((buf[27] as u16) << 8) | buf[26] as u16,
            ability_hidden: ((buf[29] as u16) << 8) | buf[28] as u16,
            form_stat_index: ((buf[31] as u16) << 8) | buf[30] as u16,
            form_count: buf[32],
            included: ((buf[33] >> 6) & 1) == 1,
        }
    }

    /// Returns the three ability slots.
    pub fn get_abilities(&self) -> (r: Abilities)
        ensures
            r == (Abilities(self.ability_1, self.ability_2, self.ability_hidden)),
    {
        Abilities(self.ability_1, self.ability_2, self.ability_hidden)
    }

    /// Returns the gender ratio.
    pub fn get_gender_ratio(&self) -> (r: u8)
        ensures
            r == self.gender_ratio,
    {
        self.gender_ratio
    }

    /// Returns the index of the first alternate form.
    pub fn get_form_index(&self) -> (r: usize)
        ensures
            r == self.form_stat_index as usize,
    {
        self.form_stat_index as usize
    }

    /// Returns the number of forms.
    pub fn get_form_count(&self) -> (r: u8)
        ensures
            r == self.form_count,
    {
        self.form_count
    }
}

/// The species table: entries by species ordinal, with alternate forms
/// appended past the base species at recorded indices.
#[derive(PartialEq, Eq, Debug, Clone)]
pub struct PersonalTable {
    pub entries: Vec<Mon>,
}

/// The entry a species and form select: the base entry for form 0; an
/// appended entry for a form below the species' form count; nothing for a
/// form past the count, an appended index out of bounds, or an unknown
/// species.
pub open spec fn spec_get_info(entries: Seq<Mon>, species: int, form: int) -> Option<Mon> {
    if 0 <= species < entries.len() {
        let base = entries[species];
        if form == 0 {
            Some(base)
        } else if form >= base.form_count {
            None
        } else if 0 <= base.form_stat_index + form - 1 < entries.len() {
            Some(entries[base.form_stat_index + form - 1])
        } else {
            None
        }
    } else {
        None
    }
}

impl PersonalTable {
    /// Initializes from in-memory entries.
    pub fn new(entries: Vec<Mon>) -> (r: Self)
        ensures
            r.entries == entries,
    {
        PersonalTable { entries }
    }

    /// Reads the table's binary format: one entry per complete 176-byte
    /// chunk, trailing bytes ignored.
    pub fn from_bytes(data: &Vec<u8>) -> (r: Self)
        ensures
            r.entries@.len() == data@.len() / 176,
            forall|k: int|
                0 <= k < r.entries@.len() ==> r.entries@[k] == spec_mon_from_bytes(
                    #[trigger] data@.subrange(k * 176, k * 176 + 176),
                ),
    {
        let mut entries: Vec<Mon> = Vec::new();
        let total = data.len();
        let count = total / 176;
        let mut k: usize = 0;
        while k < count
            invariant
                total == data@.len(),
                count == total / 176,
                k <= count,
                entries@.len() == k,
                forall|j: int|
                    0 <= j < k ==> entries@[j] == spec_mon_from_bytes(
                        #[trigger] data@.subrange(j * 176, j * 176 + 176),
                    ),
            decreases count - k,
        {
            proof {
                assert(k * 176 + 176 <= total) by (nonlinear_arith)
                    requires
                        k < count,
                        count == total / 176,
                ;
            }
            let base = k * 176;
            let entry = mon_from_buffer(data, base);
            entries.push(entry);
            k = k + 1;
        }
        PersonalTable { entries }
    }

    /// Returns the entry for a given species and form.
    pub fn get_info(&self, species: usize, form: usize) -> (r: Option<Mon>)
        ensures
            r == spec_get_info(self.entries@, species as int, form as int),
    {
        if species < self.entries.len() {
            let base = self.entries[species];
            if form == 0 {
                Some(base)
            } else if form >= base.get_form_count() as usize {
                // Form out of bounds.
                None
            } else {
                let idx = base.get_form_index() + form - 1;
                if idx < self.entries.len() {
                    Some(self.entries[idx])
                } else {
                    None
                }
            }
        } else {
            None
        }
    }
}

/// Reads the entry starting at `base` in the table's bytes.
fn mon_from_buffer(data: &Vec<u8>, base: usize) -> (r: Mon)
    requires
        base + 176 <= data@.len(),
    ensures
        r == spec_mon_from_bytes(data@.subrange(base as int, base as int + 176)),
{
    let total = data.len();
    Mon {
        hp: data[base],
        atk: data[base + 1],
        def: data[base + 2],
        spe: data[base + 3],
        spa: data[base + 4],
        spd: data[base + 5],
        item: (data[base + 12] as u16, data[base + 14] as u16),
        gender_ratio: data[base + 18],
        ability_1: ((data[base + 25] as u16) << 8) | data[base + 24] as u16,
        ability_2: ((data[base + 27] as u16) << 8) | data[base + 26] as u16,
        ability_hidden: ((data[base + 29] as u16) << 8) | data[base + 28] as u16,
        form_stat_index: ((data[base + 31] as u16) << 8) | data[base + 30] as u16,
        form_count: data[base + 32],
        included: ((data[base + 33] >> 6) & 1) == 1,
    }
}

} // verus!

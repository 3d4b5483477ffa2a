//! Directory-entry metadata as FAT32 stores it: packed date, time and
//! attribute words, read field by field.
use vstd::prelude::*;

verus! {

/// A date as represented in FAT32 on-disk structures: year since 1980
/// in bits [15:9], month in [8:5], day in [4:0].
#[derive(Default, Debug, Copy, Clone, PartialEq, Eq, Structural)]
pub struct Date(pub u16);

/// A time as represented in FAT32 on-disk structures: hour in bits
/// [15:11], minute in [10:5], two-second units in [4:0].
#[derive(Default, Debug, Copy, Clone, PartialEq, Eq, Structural)]
pub struct Time(pub u16);

/// File attributes as represented in FAT32 on-disk structures.
#[derive(Default, Debug, Copy, Clone, PartialEq, Eq, Structural)]
pub struct Attributes(pub u8);

/// A date and time together, with the extra tenths-of-a-second field.
#[derive(Default, Copy, Clone, Debug, PartialEq, Eq, Structural)]
pub struct Timestamp {
    pub date: Date,
    pub time: Time,
    pub time_10ms: u8,
}

/// Metadata for a directory entry.
#[derive(Default, Debug, Clone, PartialEq, Eq, Structural)]
pub struct Metadata {
    pub created: Timestamp,
    pub accessed: Date,
    pub modified: Timestamp,
    pub attributes: Attributes,
}

impl Attributes {
    /// The system bit.
    pub fn system(&self) -> (r: bool)
        ensures
            r == (self.0 & 0x04 != 0),
    {
        self.0 & 0x04 != 0
    }

    /// The volume-id bit.
    pub fn volume_id(&self) -> (r: bool)
        ensures
            r == (self.0 & 0x08 != 0),
    {
        self.0 & 0x08 != 0
    }

    /// The directory bit.
    pub fn directory(&self) -> (r: bool)
        ensures
            r == (self.0 & 0x10 != 0),
    {
        self.0 & 0x10 != 0
    }

    /// The archive bit.
    pub fn archive(&self) -> (r: bool)
        ensures
            r == (self.0 & 0x20 != 0),
    {
        self.0 & 0x20 != 0
    }

    /// Whether this is a long-file-name entry: all four low attribute
    /// bits at once, exactly.
    pub fn lfn(&self) -> (r: bool)
        ensures
            r == (self.0 == 0xF),
    {
        self.0 == 0xF
    }

    /// The read-only bit.
    pub fn read_only(&self) -> (r: bool)
        ensures
            r == (self.0 & 0x01 != 0),
    {
        self.0 & 0x01 != 0
    }

    /// The hidden bit.
    pub fn hidden(&self) -> (r: bool)
        ensures
            r == (self.0 & 0x02 != 0),
    {
        self.0 & 0x02 != 0
    }
}

impl Timestamp {
    /// The calendar year: 1980 plus the stored offset.
    pub fn year(&self) -> (r: usize)
        ensures
            r == 1980 + ((self.date.0 >> 9) & 0xFF),
    {
        1980 + (((self.date.0 >> 9u16) & 0xFF) as usize)
    }

    /// The month, 1 to 12 as stored.
    pub fn month(&self) -> (r: u8)
        ensures
            r == (self.date.0 >> 5) & 0xF,
    {
        let d = self.date.0;
        proof {
            assert((d >> 5) & 0xF <= 0xF) by (bit_vector);
        }
        ((d >> 5u16) & 0xF) as u8
    }

    /// The day of the month as stored.
    pub fn day(&self) -> (r: u8)
        ensures
            r == self.date.0 & 0x1F,
    {
        let d = self.date.0;
        proof {
            assert(d & 0x1F <= 0x1F) by (bit_vector);
        }
        (d & 0x1F) as u8
    }

    /// The hour as stored.
    pub fn hour(&self) -> (r: u8)
        ensures
            r == (self.time.0 >> 11) & 0x1F,
    {
        let t = self.time.0;
        proof {
            assert((t >> 11) & 0x1F <= 0x1F) by (bit_vector);
        }
        ((t >> 11u16) & 0x1F) as u8
    }

    /// The minute as stored.
    pub fn minute(&self) -> (r: u8)
        ensures
            r == (self.time.0 >> 5) & 0x3F,
    {
        let t = self.time.0;
        proof {
            assert((t >> 5) & 0x3F <= 0x3F) by (bit_vector);
        }
        ((t >> 5u16) & 0x3F) as u8
    }

    /// The second: two-second units plus whole seconds from the
    /// tenths field.
    pub fn second(&self) -> (r: u8)
        ensures
            r == 2 * (self.time.0 & 0x1F) + self.time_10ms / 100,
    {
        let t = self.time.0;
        proof {
            assert(t & 0x1F <= 0x1F) by (bit_vector);
        }
        (2 * (t & 0x1F)) as u8 + self.time_10ms / 100
    }
}

impl Metadata {
    /// Whether the read-only attribute is set.
    pub fn read_only(&self) -> (r: bool)
        ensures
            r == (self.attributes.0 & 0x01 != 0),
    {
        self.attributes.read_only()
    }

    /// Whether the hidden attribute is set.
    pub fn hidden(&self) -> (r: bool)
        ensures
            r == (self.attributes.0 & 0x02 != 0),
    {
        self.attributes.hidden()
    }

    /// The creation timestamp.
    pub fn created(&self) -> (r: Timestamp)
        ensures
            r == self.created,
    {
        self.created
    }

    /// The modification timestamp.
    pub fn modified(&self) -> (r: Timestamp)
        ensures
            r == self.modified,
    {
        self.modified
    }

    /// The access date, widened to a timestamp with a zero time.
    pub fn accessed(&self) -> (r: Timestamp)
        ensures
            r == (Timestamp { date: self.accessed, time: Time(0), time_10ms: 0 }),
    {
        Timestamp { date: self.accessed, time: Time(0), time_10ms: 0 }
    }
}


/// The attribute letters a directory listing shows: `LFN` for a
/// long-file-name entry, else one letter for each of the read-only,
/// archive, system and hidden bits, in that order.
pub open spec fn spec_attribute_letters(a: Attributes) -> Seq<char> {
    if a.0 == 0xF {
        seq!['L', 'F', 'N']
    } else {
        (if a.0 & 0x01 != 0 {
            seq!['R']
        } else {
            Seq::<char>::empty()
        }) + (if a.0 & 0x20 != 0 {
            seq!['A']
        } else {
            Seq::<char>::empty()
        }) + (if a.0 & 0x04 != 0 {
            seq!['S']
        } else {
            Seq::<char>::empty()
        }) + (if a.0 & 0x02 != 0 {
            seq!['H']
        } else {
            Seq::<char>::empty()
        })
    }
}

impl Metadata {
    /// The attribute letters of this entry, as the listing prints
    /// them.
    pub fn attribute_summary(&self) -> (r: String)
        ensures
            r@ == spec_attribute_letters(self.attributes),
    {
        let mut s = String::new();
        proof {
            reveal_strlit("LFN");
            reveal_strlit("R");
            reveal_strlit("A");
            reveal_strlit("S");
            reveal_strlit("H");
        }
        if self.attributes.lfn() {
            s.append("LFN");
            proof {
                assert(s@ =~= spec_attribute_letters(self.attributes));
            }
            return s;
        }
        if self.read_only() {
            s.append("R");
        }
        if self.attributes.archive() {
            s.append("A");
        }
        if self.attributes.system() {
            s.append("S");
        }
        if self.hidden() {
            s.append("H");
        }
        proof {
            assert(s@ =~= spec_attribute_letters(self.attributes));
        }
        s
    }
}

} // verus!

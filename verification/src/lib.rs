pub mod error;
pub mod record;
pub mod text;

use vstd::prelude::*;

use crate::error::OmfError;
use crate::record::AbsoluteSegmentAddress;
use crate::record::CommentType;
use crate::record::ExtName;
use crate::record::ExtNameV;
use crate::record::GroupComponent;
use crate::record::MAttrStart;
use crate::record::OmfRecord;
use crate::record::OmfRecordData;
use crate::record::OmfRecordDataV;
use crate::record::OmfRecordV;
use crate::record::PubName;
use crate::record::PubNameV;
use crate::record::SegmentAlignment;
use crate::record::SegmentAttributes;
use crate::record::SegmentCombination;
use crate::record::spec_alignment_from;
use crate::record::spec_combination_from;
use crate::text::decode_text;
use crate::text::utf8_decode;

verus! {

/// One entry of the segment-definitions table: the attributes and names of a
/// segment declared by a Segment Def record.
#[derive(Debug, Clone, Copy)]
pub struct SegmentInfo {
    pub segment_attributes: SegmentAttributes,
    pub segment_length: u16,
    pub segment_name_index: u8,
    pub class_name_index: u8,
    pub overlay_name_index: u8,
}

/// One entry of the group-definitions table: the group's name index and its
/// ordered components.
#[derive(Debug)]
pub struct GroupInfo {
    pub group_name_index: u8,
    pub segment_definitions: Vec<GroupComponent>,
}

/// Mathematical image of a `GroupInfo`.
pub struct GroupInfoV {
    pub group_name_index: u8,
    pub segment_definitions: Seq<GroupComponent>,
}

impl View for GroupInfo {
    type V = GroupInfoV;

    open spec fn view(&self) -> GroupInfoV {
        GroupInfoV {
            group_name_index: self.group_name_index,
            segment_definitions: self.segment_definitions@,
        }
    }
}

impl GroupInfo {
    /// An independent copy with the same contents.
    pub fn duplicate(&self) -> (r: GroupInfo)
        ensures
            r@ == self@,
    {
        let mut comps: Vec<GroupComponent> = Vec::new();
        let mut j: usize = 0;
        while j < self.segment_definitions.len()
            invariant
                j <= self.segment_definitions.len(),
                comps@ == self.segment_definitions@.take(j as int),
            decreases self.segment_definitions.len() - j,
        {
            comps.push(self.segment_definitions[j]);
            proof {
                assert(comps@ =~= self.segment_definitions@.take(j + 1));
            }
            j = j + 1;
        }
        proof {
            assert(comps@ =~= self.segment_definitions@);
        }
        GroupInfo { group_name_index: self.group_name_index, segment_definitions: comps }
    }
}

/// The ordered 1-indexed names of the names table.
pub open spec fn names_view(v: Seq<String>) -> Seq<Seq<char>> {
    Seq::new(v.len(), |i: int| v[i]@)
}

/// The ordered 1-indexed entries of the group-definitions table.
pub open spec fn groups_view(v: Seq<GroupInfo>) -> Seq<GroupInfoV> {
    Seq::new(v.len(), |i: int| v[i]@)
}

/// The session-wide accumulator: three ordered, append-only, 1-indexed
/// tables. Name-list records append names, Segment Def records append one
/// segment each, Group Def records append one group each; later records
/// resolve 1-based indices into what was appended before them.
#[derive(Debug)]
pub struct OmfInfo {
    pub names: Vec<String>,
    pub segments: Vec<SegmentInfo>,
    pub groups: Vec<GroupInfo>,
}

/// Mathematical image of the module state.
pub struct OmfInfoV {
    pub names: Seq<Seq<char>>,
    pub segments: Seq<SegmentInfo>,
    pub groups: Seq<GroupInfoV>,
}

impl View for OmfInfo {
    type V = OmfInfoV;

    open spec fn view(&self) -> OmfInfoV {
        OmfInfoV {
            names: names_view(self.names@),
            segments: self.segments@,
            groups: groups_view(self.groups@),
        }
    }
}

impl OmfInfo {
    /// Fresh module state: all three tables empty.
    pub fn new() -> (r: OmfInfo)
        ensures
            r@.names.len() == 0,
            r@.segments.len() == 0,
            r@.groups.len() == 0,
    {
        OmfInfo { names: Vec::new(), segments: Vec::new(), groups: Vec::new() }
    }

    /// Append a batch of names in order; the names table grows by exactly the
    /// batch, the other tables stay as they were. Returns the new table
    /// length, the 1-based index of the last name appended.
    pub fn append_names(&mut self, names: &Vec<String>) -> (r: usize)
        ensures
            final(self)@.names == old(self)@.names + names_view(names@),
            final(self)@.segments == old(self)@.segments,
            final(self)@.groups == old(self)@.groups,
            r == final(self)@.names.len(),
    {
        let mut j: usize = 0;
        while j < names.len()
            invariant
                j <= names.len(),
                self.names@ == old(self).names@ + names@.take(j as int),
                self.segments@ == old(self).segments@,
                self.groups@ == old(self).groups@,
            decreases names.len() - j,
        {
            let s = names[j].clone();
            self.names.push(s);
            proof {
                assert(self.names@ =~= old(self).names@ + names@.take(j + 1));
            }
            j = j + 1;
        }
        proof {
            assert(names@.take(names@.len() as int) =~= names@);
            assert(self@.names =~~= old(self)@.names + names_view(names@));
            assert(self@.groups =~~= old(self)@.groups);
        }
        self.names.len()
    }

    /// Append one segment definition; returns the new table length, the
    /// 1-based index assigned to it.
    pub fn append_segment(&mut self, info: SegmentInfo) -> (r: usize)
        ensures
            final(self)@.segments == old(self)@.segments.push(info),
            final(self)@.names == old(self)@.names,
            final(self)@.groups == old(self)@.groups,
            r == final(self)@.segments.len(),
    {
        self.segments.push(info);
        proof {
            assert(self@.names =~= old(self)@.names);
            assert(self@.groups =~= old(self)@.groups);
        }
        self.segments.len()
    }

    /// Append one group definition; returns the new table length, the
    /// 1-based index assigned to it.
    pub fn append_group(&mut self, info: GroupInfo) -> (r: usize)
        ensures
            final(self)@.groups == old(self)@.groups.push(info@),
            final(self)@.names == old(self)@.names,
            final(self)@.segments == old(self)@.segments,
            r == final(self)@.groups.len(),
    {
        self.groups.push(info);
        proof {
            assert(self@.names =~= old(self)@.names);
            assert(self@.groups =~= old(self)@.groups.push(self.groups@[old(self).groups@.len() as int]@));
        }
        self.groups.len()
    }

    /// Resolve a 1-based name index: index zero is the "absent" sentinel and
    /// always fails, as does an index past the current table length.
    pub fn resolve_name(&self, index: u8) -> (r: Result<String, OmfError>)
        ensures
            1 <= index <= self@.names.len() ==> (r matches Ok(s) && s@ == self@.names[index - 1]),
            index == 0 || index > self@.names.len() ==> r == Err::<String, OmfError>(
                OmfError::NameIndex,
            ),
    {
        if index == 0 {
            Err(OmfError::NameIndex)
        } else {
            let i = (index - 1) as usize;
            if i < self.names.len() {
                Ok(self.names[i].clone())
            } else {
                Err(OmfError::NameIndex)
            }
        }
    }

    /// Resolve a 1-based segment index; zero and out-of-range fail.
    pub fn resolve_segment(&self, index: u8) -> (r: Result<SegmentInfo, OmfError>)
        ensures
            1 <= index <= self@.segments.len() ==> r == Ok::<SegmentInfo, OmfError>(
                self@.segments[index - 1],
            ),
            index == 0 || index > self@.segments.len() ==> r == Err::<SegmentInfo, OmfError>(
                OmfError::SegmentIndex,
            ),
    {
        if index == 0 {
            Err(OmfError::SegmentIndex)
        } else {
            let i = (index - 1) as usize;
            if i < self.segments.len() {
                Ok(self.segments[i])
            } else {
                Err(OmfError::SegmentIndex)
            }
        }
    }

    /// Resolve a 1-based group index; zero and out-of-range fail.
    pub fn resolve_group(&self, index: u8) -> (r: Result<GroupInfo, OmfError>)
        ensures
            1 <= index <= self@.groups.len() ==> (r matches Ok(g) && g@ == self@.groups[index - 1]),
            index == 0 || index > self@.groups.len() ==> r == Err::<GroupInfo, OmfError>(
                OmfError::GroupIndex,
            ),
    {
        if index == 0 {
            Err(OmfError::GroupIndex)
        } else {
            let i = (index - 1) as usize;
            if i < self.groups.len() {
                Ok(self.groups[i].duplicate())
            } else {
                Err(OmfError::GroupIndex)
            }
        }
    }

    /// An independent copy of the whole state, for handing each decoded
    /// record the tables as they stood at its decode time.
    pub fn snapshot(&self) -> (r: OmfInfo)
        ensures
            r@ == self@,
    {
        let mut names: Vec<String> = Vec::new();
        let mut j: usize = 0;
        while j < self.names.len()
            invariant
                j <= self.names.len(),
                names@ == self.names@.take(j as int),
            decreases self.names.len() - j,
        {
            names.push(self.names[j].clone());
            proof {
                assert(names@ =~= self.names@.take(j + 1));
            }
            j = j + 1;
        }
        let mut segments: Vec<SegmentInfo> = Vec::new();
        let mut k: usize = 0;
        while k < self.segments.len()
            invariant
                k <= self.segments.len(),
                segments@ == self.segments@.take(k as int),
            decreases self.segments.len() - k,
        {
            segments.push(self.segments[k]);
            proof {
                assert(segments@ =~= self.segments@.take(k + 1));
            }
            k = k + 1;
        }
        let mut groups: Vec<GroupInfo> = Vec::new();
        let mut g: usize = 0;
        while g < self.groups.len()
            invariant
                g <= self.groups.len(),
                groups@.len() == g,
                forall|i: int| 0 <= i < g ==> #[trigger] groups@[i]@ == self.groups@[i]@,
            decreases self.groups.len() - g,
        {
            groups.push(self.groups[g].duplicate());
            g = g + 1;
        }
        let r = OmfInfo { names, segments, groups };
        proof {
            assert(names@ =~= self.names@);
            assert(segments@ =~= self.segments@);
            assert(r@.names =~~= self@.names);
            assert(r@.groups =~~= self@.groups);
            assert(r@ =~~= self@);
        }
        r
    }
}

/// The little-endian 16-bit value at position `i` of `b`.
pub open spec fn spec_le16(b: Seq<u8>, i: int) -> int {
    b[i] + 256 * (b[i + 1] as int)
}

/// The pull-based decoder: a byte cursor over the whole stream, plus the
/// module state it accumulates while decoding definition-style records.
pub struct OmfReader {
    data: Vec<u8>,
    pos: usize,
    info: OmfInfo,
}

/// Mathematical image of the decoder: the stream, the cursor position, and
/// the module state so far.
pub struct OmfReaderV {
    pub data: Seq<u8>,
    pub pos: int,
    pub info: OmfInfoV,
}

impl View for OmfReader {
    type V = OmfReaderV;

    closed spec fn view(&self) -> OmfReaderV {
        OmfReaderV { data: self.data@, pos: self.pos as int, info: self.info@ }
    }
}

impl OmfReader {
    /// A decoder at the start of the given stream, with empty module state.
    pub fn new(data: Vec<u8>) -> (r: OmfReader)
        ensures
            r@.data == data@,
            r@.pos == 0,
            r@.info.names.len() == 0,
            r@.info.segments.len() == 0,
            r@.info.groups.len() == 0,
    {
        OmfReader { data, pos: 0, info: OmfInfo::new() }
    }

    /// Read one byte; fails with a truncation error at end of stream.
    pub fn read_u8(&mut self) -> (r: Result<u8, OmfError>)
        ensures
            final(self)@.data == old(self)@.data,
            final(self)@.info == old(self)@.info,
            old(self)@.pos < old(self)@.data.len() ==> r == Ok::<u8, OmfError>(
                old(self)@.data[old(self)@.pos],
            ) && final(self)@.pos == old(self)@.pos + 1,
            old(self)@.pos >= old(self)@.data.len() ==> r == Err::<u8, OmfError>(
                OmfError::Truncated,
            ) && final(self)@.pos == old(self)@.pos,
    {
        if self.pos < self.data.len() {
            let b = self.data[self.pos];
            self.pos = self.pos + 1;
            Ok(b)
        } else {
            Err(OmfError::Truncated)
        }
    }

    /// Read a little-endian 16-bit value; fails with a truncation error if
    /// fewer than two bytes remain.
    pub fn read_u16(&mut self) -> (r: Result<u16, OmfError>)
        ensures
            final(self)@.data == old(self)@.data,
            final(self)@.info == old(self)@.info,
            old(self)@.pos + 2 <= old(self)@.data.len() ==> r == Ok::<u16, OmfError>(
                spec_le16(old(self)@.data, old(self)@.pos) as u16,
            ) && final(self)@.pos == old(self)@.pos + 2,
            old(self)@.pos + 2 > old(self)@.data.len() ==> r == Err::<u16, OmfError>(
                OmfError::Truncated,
            ) && final(self)@.pos == old(self)@.pos,
    {
        if self.pos < self.data.len() && self.pos + 1 < self.data.len() {
            let lo = self.data[self.pos];
            let hi = self.data[self.pos + 1];
            self.pos = self.pos + 2;
            Ok((lo as u16) + 256 * (hi as u16))
        } else {
            Err(OmfError::Truncated)
        }
    }

    /// Read a fixed-length block; fails with a truncation error if fewer
    /// than `len` bytes remain.
    pub fn read_bytes(&mut self, len: usize) -> (r: Result<Vec<u8>, OmfError>)
        ensures
            final(self)@.data == old(self)@.data,
            final(self)@.info == old(self)@.info,
            old(self)@.pos + len <= old(self)@.data.len() ==> (r matches Ok(v) && v@
                == old(self)@.data.subrange(old(self)@.pos, old(self)@.pos + len) && final(self)@.pos
                == old(self)@.pos + len),
            old(self)@.pos + len > old(self)@.data.len() ==> r == Err::<Vec<u8>, OmfError>(
                OmfError::Truncated,
            ) && final(self)@.pos == old(self)@.pos,
    {
        if self.pos <= self.data.len() && len <= self.data.len() - self.pos {
            let mut v: Vec<u8> = Vec::new();
            let mut j: usize = 0;
            while j < len
                invariant
                    j <= len,
                    self.pos + len <= self.data.len(),
                    v@ == self.data@.subrange(self.pos as int, self.pos + j),
                decreases len - j,
            {
                v.push(self.data[self.pos + j]);
                proof {
                    assert(v@ =~= self.data@.subrange(self.pos as int, self.pos + j + 1));
                }
                j = j + 1;
            }
            self.pos = self.pos + len;
            Ok(v)
        } else {
            Err(OmfError::Truncated)
        }
    }

    /// Read a length-prefixed string: one length byte, then that many bytes,
    /// decoded as text. Fails with a truncation error on short input and a
    /// text error on bytes that are not valid text.
    pub fn read_string(&mut self) -> (r: Result<String, OmfError>)
        ensures
            final(self)@.data == old(self)@.data,
            final(self)@.info == old(self)@.info,
            match spec_read_pstring(old(self)@.data, old(self)@.pos) {
                Ok(sp) => r matches Ok(s) && s@ == sp.0 && final(self)@.pos == sp.1,
                Err(e) => r == Err::<String, OmfError>(e) && final(self)@.pos == old(self)@.pos,
            },
    {
        let len = match self.read_u8() {
            Ok(v) => v,
            Err(e) => {
                return Err(e);
            },
        };
        match self.read_bytes(len as usize) {
            Ok(bytes) => match crate::text::decode_text(bytes) {
                Ok(s) => Ok(s),
                Err(e) => {
                    self.pos = self.pos - 1 - (len as usize);
                    Err(e)
                },
            },
            Err(e) => {
                self.pos = self.pos - 1;
                Err(e)
            },
        }
    }
}

/// What reading a length-prefixed string at position `p` of `b` yields: the
/// decoded characters and the position after them, or the error.
pub open spec fn spec_read_pstring(b: Seq<u8>, p: int) -> Result<(Seq<char>, int), OmfError> {
    if p >= b.len() {
        Err(OmfError::Truncated)
    } else {
        let n = b[p] as int;
        if p + 1 + n > b.len() {
            Err(OmfError::Truncated)
        } else {
            match crate::text::utf8_decode(b.subrange(p + 1, p + 1 + n)) {
                Some(s) => Ok((s, p + 1 + n)),
                None => Err(OmfError::Text),
            }
        }
    }
}

/// Names of a list-of-names payload: length-prefixed strings packed
/// back-to-back through the whole of `b`; an entry that would cross the end
/// of the byte budget is a length error, never a silent overrun.
pub open spec fn spec_name_entries(b: Seq<u8>) -> Result<Seq<Seq<char>>, OmfError>
    decreases b.len(),
{
    if b.len() == 0 {
        Ok(Seq::<Seq<char>>::empty())
    } else {
        let n = b[0] as int;
        if 1 + n > b.len() {
            Err(OmfError::Length)
        } else {
            match utf8_decode(b.subrange(1, 1 + n)) {
                None => Err(OmfError::Text),
                Some(name) => match spec_name_entries(b.skip(1 + n)) {
                    Err(e) => Err(e),
                    Ok(rest) => Ok(seq![name] + rest),
                },
            }
        }
    }
}

/// Entries of an External Names Def payload: a name followed by one
/// type-index byte, repeated through the whole budget.
pub open spec fn spec_ext_entries(b: Seq<u8>) -> Result<Seq<ExtNameV>, OmfError>
    decreases b.len(),
{
    if b.len() == 0 {
        Ok(Seq::<ExtNameV>::empty())
    } else {
        let n = b[0] as int;
        if 2 + n > b.len() {
            Err(OmfError::Length)
        } else {
            match utf8_decode(b.subrange(1, 1 + n)) {
                None => Err(OmfError::Text),
                Some(name) => match spec_ext_entries(b.skip(2 + n)) {
                    Err(e) => Err(e),
                    Ok(rest) => Ok(seq![ExtNameV { name, type_index: b[1 + n] }] + rest),
                },
            }
        }
    }
}

/// Entries of a Public Names Def payload: a name, a 16-bit offset and one
/// type-index byte, repeated through the whole budget.
pub open spec fn spec_pub_entries(b: Seq<u8>) -> Result<Seq<PubNameV>, OmfError>
    decreases b.len(),
{
    if b.len() == 0 {
        Ok(Seq::<PubNameV>::empty())
    } else {
        let n = b[0] as int;
        if 4 + n > b.len() {
            Err(OmfError::Length)
        } else {
            match utf8_decode(b.subrange(1, 1 + n)) {
                None => Err(OmfError::Text),
                Some(name) => match spec_pub_entries(b.skip(4 + n)) {
                    Err(e) => Err(e),
                    Ok(rest) => Ok(
                        seq![
                            PubNameV {
                                name,
                                public_offset: spec_le16(b, 1 + n) as u16,
                                type_index: b[3 + n],
                            },
                        ] + rest,
                    ),
                },
            }
        }
    }
}

/// Component pairs of a Group Def payload: two index bytes per entry; an odd
/// budget is a length error.
pub open spec fn spec_group_entries(b: Seq<u8>) -> Result<Seq<GroupComponent>, OmfError>
    decreases b.len(),
{
    if b.len() == 0 {
        Ok(Seq::<GroupComponent>::empty())
    } else if b.len() == 1 {
        Err(OmfError::Length)
    } else {
        match spec_group_entries(b.skip(2)) {
            Err(e) => Err(e),
            Ok(rest) => Ok(seq![GroupComponent { index: b[0], segment_definition: b[1] }] + rest),
        }
    }
}

/// What decoding the payload bytes `p` (the declared length minus the
/// checksum byte) of a record with tag byte `tag` yields: the typed payload,
/// or the first error. Every branch must consume `p` exactly.
pub open spec fn spec_payload(tag: u8, p: Seq<u8>) -> Result<OmfRecordDataV, OmfError> {
    if tag == 0x80 {
        if p.len() < 1 {
            Err(OmfError::Length)
        } else {
            let n = p[0] as int;
            if 1 + n != p.len() {
                Err(OmfError::Length)
            } else {
                match utf8_decode(p.skip(1)) {
                    None => Err(OmfError::Text),
                    Some(name) => Ok(OmfRecordDataV::THeadr { name }),
                }
            }
        }
    } else if tag == 0x88 {
        if p.len() < 2 {
            Err(OmfError::Length)
        } else {
            Ok(
                OmfRecordDataV::Coment {
                    comment_type: CommentType {
                        no_purge: p[0] & 0x80 != 0,
                        no_list: p[0] & 0x80 != 0,
                    },
                    comment_class: p[1],
                    comment_bytes: p.skip(2),
                },
            )
        }
    } else if tag == 0x8A {
        if p.len() < 1 {
            Err(OmfError::Length)
        } else {
            let main = p[0] & 0x80 != 0;
            if p[0] & 0x40 != 0 {
                if p.len() != 6 {
                    Err(OmfError::Length)
                } else {
                    Ok(
                        OmfRecordDataV::ModEnd {
                            main,
                            start: MAttrStart::Start {
                                end_data: p[1],
                                frame_datum: p[2],
                                target_datum: p[3],
                                target_displacement: spec_le16(p, 4) as u16,
                            },
                        },
                    )
                }
            } else {
                if p.len() != 1 {
                    Err(OmfError::Length)
                } else {
                    Ok(OmfRecordDataV::ModEnd { main, start: MAttrStart::NoStart })
                }
            }
        }
    } else if tag == 0x8C {
        match spec_ext_entries(p) {
            Err(e) => Err(e),
            Ok(names) => Ok(OmfRecordDataV::ExtDef { names }),
        }
    } else if tag == 0x90 {
        if p.len() < 2 {
            Err(OmfError::Length)
        } else {
            let bgi = p[0];
            let bsi = p[1];
            if bsi == 0 {
                if p.len() < 4 {
                    Err(OmfError::Length)
                } else {
                    match spec_pub_entries(p.skip(4)) {
                        Err(e) => Err(e),
                        Ok(names) => Ok(
                            OmfRecordDataV::PubDef {
                                base_group_index: bgi,
                                base_segment_index: bsi,
                                base_frame: spec_le16(p, 2) as u16,
                                names,
                            },
                        ),
                    }
                }
            } else {
                match spec_pub_entries(p.skip(2)) {
                    Err(e) => Err(e),
                    Ok(names) => Ok(
                        OmfRecordDataV::PubDef {
                            base_group_index: bgi,
                            base_segment_index: bsi,
                            base_frame: 0u16,
                            names,
                        },
                    ),
                }
            }
        }
    } else if tag == 0x96 {
        match spec_name_entries(p) {
            Err(e) => Err(e),
            Ok(names) => Ok(OmfRecordDataV::LNames { names }),
        }
    } else if tag == 0x98 {
        if p.len() < 1 {
            Err(OmfError::Length)
        } else {
            let tmp = p[0];
            match spec_alignment_from(tmp >> 5) {
                None => Err(OmfError::Alignment),
                Some(alignment) => match spec_combination_from((tmp >> 2) & 3) {
                    None => Err(OmfError::Combination),
                    Some(combination) => {
                        if alignment == SegmentAlignment::AbsoluteSegment {
                            if p.len() != 9 {
                                Err(OmfError::Length)
                            } else {
                                Ok(
                                    OmfRecordDataV::SegDef {
                                        segment_attributes: SegmentAttributes {
                                            alignment,
                                            combination,
                                            big: tmp & 2 != 0,
                                            bd32bit: tmp & 1 != 0,
                                            absolute_segment_address: Some(
                                                AbsoluteSegmentAddress {
                                                    frame_number: spec_le16(p, 1) as u16,
                                                    offset: p[3],
                                                },
                                            ),
                                        },
                                        segment_length: spec_le16(p, 4) as u16,
                                        segment_name_index: p[6],
                                        class_name_index: p[7],
                                        overlay_name_index: p[8],
                                    },
                                )
                            }
                        } else {
                            if p.len() != 6 {
                                Err(OmfError::Length)
                            } else {
                                Ok(
                                    OmfRecordDataV::SegDef {
                                        segment_attributes: SegmentAttributes {
                                            alignment,
                                            combination,
                                            big: tmp & 2 != 0,
                                            bd32bit: tmp & 1 != 0,
                                            absolute_segment_address: None,
                                        },
                                        segment_length: spec_le16(p, 1) as u16,
                                        segment_name_index: p[3],
                                        class_name_index: p[4],
                                        overlay_name_index: p[5],
                                    },
                                )
                            }
                        }
                    },
                },
            }
        }
    } else if tag == 0x9A {
        if p.len() < 1 {
            Err(OmfError::Length)
        } else {
            match spec_group_entries(p.skip(1)) {
                Err(e) => Err(e),
                Ok(segment_definitions) => Ok(
                    OmfRecordDataV::GrpDef { group_name_index: p[0], segment_definitions },
                ),
            }
        }
    } else if tag == 0xA0 {
        if p.len() < 3 {
            Err(OmfError::Length)
        } else {
            Ok(
                OmfRecordDataV::LEData {
                    segment_index: p[0],
                    enumerated_data_offset: spec_le16(p, 1) as u16,
                    data: p.skip(3),
                },
            )
        }
    } else {
        Ok(OmfRecordDataV::Unknown { data: p })
    }
}

/// How one decoded payload changes the module state: a list of names appends
/// exactly those names, a segment definition appends exactly one segment, a
/// group definition appends exactly one group, and every other record leaves
/// the tables untouched.
pub open spec fn spec_state_after(st: OmfInfoV, d: OmfRecordDataV) -> OmfInfoV {
    match d {
        OmfRecordDataV::LNames { names } => OmfInfoV {
            names: st.names + names,
            segments: st.segments,
            groups: st.groups,
        },
        OmfRecordDataV::SegDef {
            segment_attributes,
            segment_length,
            segment_name_index,
            class_name_index,
            overlay_name_index,
        } => OmfInfoV {
            names: st.names,
            segments: st.segments.push(
                SegmentInfo {
                    segment_attributes,
                    segment_length,
                    segment_name_index,
                    class_name_index,
                    overlay_name_index,
                },
            ),
            groups: st.groups,
        },
        OmfRecordDataV::GrpDef { group_name_index, segment_definitions } => OmfInfoV {
            names: st.names,
            segments: st.segments,
            groups: st.groups.push(GroupInfoV { group_name_index, segment_definitions }),
        },
        _ => st,
    }
}

/// What one pull on the decoder yields at position `pos` of stream `b` with
/// module state `st`: clean end of stream, or the decoded record together
/// with the state after it and the position after it, or the first error.
/// For every tag but the Translator Header the declared length covers the
/// payload and the trailing checksum byte; a Translator Header's declared
/// length covers its name string alone, with the checksum byte after it.
pub open spec fn spec_next_record(b: Seq<u8>, pos: int, st: OmfInfoV) -> Result<
    Option<(OmfRecordV, OmfInfoV, int)>,
    OmfError,
> {
    if pos == b.len() {
        Ok(None)
    } else if pos + 3 > b.len() {
        Err(OmfError::Truncated)
    } else {
        let tag = b[pos];
        let len = spec_le16(b, pos + 1);
        let total = if tag == 0x80 {
            len + 1
        } else {
            len
        };
        if total < 1 {
            Err(OmfError::Length)
        } else if pos + 3 + total > b.len() {
            Err(OmfError::Truncated)
        } else {
            let body = b.subrange(pos + 3, pos + 3 + total);
            match spec_payload(tag, body.take(total - 1)) {
                Err(e) => Err(e),
                Ok(d) => Ok(
                    Some(
                        (
                            OmfRecordV {
                                record_type: tag,
                                record_length: len,
                                data: d,
                                checksum: body[total - 1],
                            },
                            spec_state_after(st, d),
                            pos + 3 + total,
                        ),
                    ),
                ),
            }
        }
    }
}

/// The bytes of `b` from `from` (inclusive) to `to` (exclusive), as a fresh
/// vector.
fn bytes_range(b: &Vec<u8>, from: usize, to: usize) -> (r: Vec<u8>)
    requires
        from <= to <= b@.len(),
    ensures
        r@ == b@.subrange(from as int, to as int),
{
    let mut v: Vec<u8> = Vec::new();
    let mut j: usize = from;
    while j < to
        invariant
            from <= j <= to <= b@.len(),
            v@ == b@.subrange(from as int, j as int),
        decreases to - j,
    {
        v.push(b[j]);
        proof {
            assert(v@ =~= b@.subrange(from as int, j + 1));
        }
        j = j + 1;
    }
    v
}

/// An independent copy of a component list.
fn copy_components(b: &Vec<GroupComponent>) -> (r: Vec<GroupComponent>)
    ensures
        r@ == b@,
{
    let mut v: Vec<GroupComponent> = Vec::new();
    let mut j: usize = 0;
    while j < b.len()
        invariant
            j <= b@.len(),
            v@ == b@.take(j as int),
        decreases b@.len() - j,
    {
        v.push(b[j]);
        proof {
            assert(v@ =~= b@.take(j + 1));
        }
        j = j + 1;
    }
    proof {
        assert(v@ =~= b@);
    }
    v
}

/// Decode list-of-names entries from `b[i..end]`, whole-budget exact.
fn parse_name_entries(b: &Vec<u8>, i: usize, end: usize) -> (r: Result<Vec<String>, OmfError>)
    requires
        i <= end <= b@.len(),
    ensures
        r matches Ok(v) ==> spec_name_entries(b@.subrange(i as int, end as int)) == Ok::<
            Seq<Seq<char>>,
            OmfError,
        >(names_view(v@)),
        r matches Err(e) ==> spec_name_entries(b@.subrange(i as int, end as int)) == Err::<
            Seq<Seq<char>>,
            OmfError,
        >(e),
    decreases end - i,
{
    let ghost rem = b@.subrange(i as int, end as int);
    if i == end {
        let v: Vec<String> = Vec::new();
        proof {
            assert(names_view(v@) =~= Seq::<Seq<char>>::empty());
        }
        Ok(v)
    } else {
        let n = b[i] as usize;
        if n >= end - i {
            Err(OmfError::Length)
        } else {
            let bytes = bytes_range(b, i + 1, i + 1 + n);
            proof {
                assert(bytes@ =~= rem.subrange(1, 1 + n as int));
            }
            match decode_text(bytes) {
                Err(e) => Err(e),
                Ok(s) => match parse_name_entries(b, i + 1 + n, end) {
                    Err(e) => {
                        proof {
                            assert(b@.subrange((i + 1 + n) as int, end as int) =~= rem.skip(
                                1 + n as int,
                            ));
                        }
                        Err(e)
                    },
                    Ok(rest) => {
                        let ghost rest0 = rest@;
                        let mut rest = rest;
                        rest.insert(0, s);
                        proof {
                            assert(b@.subrange((i + 1 + n) as int, end as int) =~= rem.skip(
                                1 + n as int,
                            ));
                            assert(names_view(rest@) =~~= seq![s@] + names_view(rest0));
                        }
                        Ok(rest)
                    },
                },
            }
        }
    }
}

/// Decode External Names Def entries from `b[i..end]`, whole-budget exact.
fn parse_ext_entries(b: &Vec<u8>, i: usize, end: usize) -> (r: Result<Vec<ExtName>, OmfError>)
    requires
        i <= end <= b@.len(),
    ensures
        r matches Ok(v) ==> spec_ext_entries(b@.subrange(i as int, end as int)) == Ok::<
            Seq<ExtNameV>,
            OmfError,
        >(Seq::new(v@.len(), |k: int| v@[k]@)),
        r matches Err(e) ==> spec_ext_entries(b@.subrange(i as int, end as int)) == Err::<
            Seq<ExtNameV>,
            OmfError,
        >(e),
    decreases end - i,
{
    let ghost rem = b@.subrange(i as int, end as int);
    if i == end {
        let v: Vec<ExtName> = Vec::new();
        proof {
            assert(Seq::new(v@.len(), |k: int| v@[k]@) =~= Seq::<ExtNameV>::empty());
        }
        Ok(v)
    } else {
        let n = b[i] as usize;
        if end - i < 2 || n > end - i - 2 {
            Err(OmfError::Length)
        } else {
            let bytes = bytes_range(b, i + 1, i + 1 + n);
            proof {
                assert(bytes@ =~= rem.subrange(1, 1 + n as int));
            }
            match decode_text(bytes) {
                Err(e) => Err(e),
                Ok(s) => {
                    let type_index = b[i + 1 + n];
                    match parse_ext_entries(b, i + 2 + n, end) {
                        Err(e) => {
                            proof {
                                assert(b@.subrange((i + 2 + n) as int, end as int) =~= rem.skip(
                                    2 + n as int,
                                ));
                            }
                            Err(e)
                        },
                        Ok(rest) => {
                            let ghost rest0 = rest@;
                            let mut rest = rest;
                            rest.insert(0, ExtName { name: s, type_index });
                            proof {
                                assert(b@.subrange((i + 2 + n) as int, end as int) =~= rem.skip(
                                    2 + n as int,
                                ));
                                assert(Seq::new(rest@.len(), |k: int| rest@[k]@) =~~= seq![
                                    ExtNameV { name: s@, type_index },
                                ] + Seq::new(rest0.len(), |k: int| rest0[k]@));
                            }
                            Ok(rest)
                        },
                    }
                },
            }
        }
    }
}

/// Decode Public Names Def entries from `b[i..end]`, whole-budget exact.
fn parse_pub_entries(b: &Vec<u8>, i: usize, end: usize) -> (r: Result<Vec<PubName>, OmfError>)
    requires
        i <= end <= b@.len(),
    ensures
        r matches Ok(v) ==> spec_pub_entries(b@.subrange(i as int, end as int)) == Ok::<
            Seq<PubNameV>,
            OmfError,
        >(Seq::new(v@.len(), |k: int| v@[k]@)),
        r matches Err(e) ==> spec_pub_entries(b@.subrange(i as int, end as int)) == Err::<
            Seq<PubNameV>,
            OmfError,
        >(e),
    decreases end - i,
{
    let ghost rem = b@.subrange(i as int, end as int);
    if i == end {
        let v: Vec<PubName> = Vec::new();
        proof {
            assert(Seq::new(v@.len(), |k: int| v@[k]@) =~= Seq::<PubNameV>::empty());
        }
        Ok(v)
    } else {
        let n = b[i] as usize;
        if end - i < 4 || n > end - i - 4 {
            Err(OmfError::Length)
        } else {
            let bytes = bytes_range(b, i + 1, i + 1 + n);
            proof {
                assert(bytes@ =~= rem.subrange(1, 1 + n as int));
            }
            match decode_text(bytes) {
                Err(e) => Err(e),
                Ok(s) => {
                    let public_offset = (b[i + 1 + n] as u16) + 256 * (b[i + 2 + n] as u16);
                    let type_index = b[i + 3 + n];
                    proof {
                        assert(public_offset == spec_le16(rem, 1 + n as int) as u16);
                    }
                    match parse_pub_entries(b, i + 4 + n, end) {
                        Err(e) => {
                            proof {
                                assert(b@.subrange((i + 4 + n) as int, end as int) =~= rem.skip(
                                    4 + n as int,
                                ));
                            }
                            Err(e)
                        },
                        Ok(rest) => {
                            let ghost rest0 = rest@;
                            let mut rest = rest;
                            rest.insert(0, PubName { name: s, public_offset, type_index });
                            proof {
                                assert(b@.subrange((i + 4 + n) as int, end as int) =~= rem.skip(
                                    4 + n as int,
                                ));
                                assert(Seq::new(rest@.len(), |k: int| rest@[k]@) =~~= seq![
                                    PubNameV { name: s@, public_offset, type_index },
                                ] + Seq::new(rest0.len(), |k: int| rest0[k]@));
                            }
                            Ok(rest)
                        },
                    }
                },
            }
        }
    }
}

/// Decode Group Def component pairs from `b[i..end]`, whole-budget exact.
fn parse_group_entries(b: &Vec<u8>, i: usize, end: usize) -> (r: Result<
    Vec<GroupComponent>,
    OmfError,
>)
    requires
        i <= end <= b@.len(),
    ensures
        r matches Ok(v) ==> spec_group_entries(b@.subrange(i as int, end as int)) == Ok::<
            Seq<GroupComponent>,
            OmfError,
        >(v@),
        r matches Err(e) ==> spec_group_entries(b@.subrange(i as int, end as int)) == Err::<
            Seq<GroupComponent>,
            OmfError,
        >(e),
    decreases end - i,
{
    let ghost rem = b@.subrange(i as int, end as int);
    if i == end {
        let v: Vec<GroupComponent> = Vec::new();
        proof {
            assert(v@ =~= Seq::<GroupComponent>::empty());
        }
        Ok(v)
    } else if end - i == 1 {
        Err(OmfError::Length)
    } else {
        let index = b[i];
        let segment_definition = b[i + 1];
        match parse_group_entries(b, i + 2, end) {
            Err(e) => {
                proof {
                    assert(b@.subrange((i + 2) as int, end as int) =~= rem.skip(2));
                }
                Err(e)
            },
            Ok(rest) => {
                let ghost rest0 = rest@;
                let mut rest = rest;
                rest.insert(0, GroupComponent { index, segment_definition });
                proof {
                    assert(b@.subrange((i + 2) as int, end as int) =~= rem.skip(2));
                    assert(rest@ =~= seq![GroupComponent { index, segment_definition }] + rest0);
                }
                Ok(rest)
            },
        }
    }
}

/// Decode the payload bytes `body[0..plen]` of a record with the given tag;
/// `body` also holds the trailing checksum byte after them.
#[verifier::rlimit(100)]
fn parse_payload(tag: u8, body: &Vec<u8>, plen: usize) -> (r: Result<OmfRecordData, OmfError>)
    requires
        plen <= body@.len(),
    ensures
        r matches Ok(d) ==> spec_payload(tag, body@.take(plen as int)) == Ok::<
            OmfRecordDataV,
            OmfError,
        >(d@),
        r matches Err(e) ==> spec_payload(tag, body@.take(plen as int)) == Err::<
            OmfRecordDataV,
            OmfError,
        >(e),
{
    let ghost p = body@.take(plen as int);
    if tag == 0x80 {
        if plen < 1 {
            Err(OmfError::Length)
        } else {
            let n = body[0] as usize;
            if 1 + n != plen {
                Err(OmfError::Length)
            } else {
                let bytes = bytes_range(body, 1, plen);
                proof {
                    assert(bytes@ =~= p.skip(1));
                }
                match decode_text(bytes) {
                    Err(e) => Err(e),
                    Ok(name) => Ok(OmfRecordData::THeadr { name }),
                }
            }
        }
    } else if tag == 0x88 {
        if plen < 2 {
            Err(OmfError::Length)
        } else {
            let tmp = body[0];
            let no_purge = tmp & 0x80 != 0;
            let no_list = tmp & 0x80 != 0;
            let comment_class = body[1];
            let comment_bytes = bytes_range(body, 2, plen);
            proof {
                assert(comment_bytes@ =~= p.skip(2));
            }
            Ok(
                OmfRecordData::Coment {
                    comment_type: CommentType { no_purge, no_list },
                    comment_class,
                    comment_bytes,
                },
            )
        }
    } else if tag == 0x8A {
        if plen < 1 {
            Err(OmfError::Length)
        } else {
            let tmp = body[0];
            let main = tmp & 0x80 != 0;
            if tmp & 0x40 != 0 {
                if plen != 6 {
                    Err(OmfError::Length)
                } else {
                    let target_displacement = (body[4] as u16) + 256 * (body[5] as u16);
                    proof {
                        assert(target_displacement == spec_le16(p, 4) as u16);
                    }
                    Ok(
                        OmfRecordData::ModEnd {
                            main,
                            start: MAttrStart::Start {
                                end_data: body[1],
                                frame_datum: body[2],
                                target_datum: body[3],
                                target_displacement,
                            },
                        },
                    )
                }
            } else {
                if plen != 1 {
                    Err(OmfError::Length)
                } else {
                    Ok(OmfRecordData::ModEnd { main, start: MAttrStart::NoStart })
                }
            }
        }
    } else if tag == 0x8C {
        proof {
            assert(body@.subrange(0, plen as int) =~= p);
        }
        match parse_ext_entries(body, 0, plen) {
            Err(e) => Err(e),
            Ok(names) => Ok(OmfRecordData::ExtDef { names }),
        }
    } else if tag == 0x90 {
        if plen < 2 {
            Err(OmfError::Length)
        } else {
            let base_group_index = body[0];
            let base_segment_index = body[1];
            if base_segment_index == 0 {
                if plen < 4 {
                    Err(OmfError::Length)
                } else {
                    let base_frame = (body[2] as u16) + 256 * (body[3] as u16);
                    proof {
                        assert(base_frame == spec_le16(p, 2) as u16);
                        assert(body@.subrange(4, plen as int) =~= p.skip(4));
                    }
                    match parse_pub_entries(body, 4, plen) {
                        Err(e) => Err(e),
                        Ok(names) => Ok(
                            OmfRecordData::PubDef {
                                base_group_index,
                                base_segment_index,
                                base_frame,
                                names,
                            },
                        ),
                    }
                }
            } else {
                proof {
                    assert(body@.subrange(2, plen as int) =~= p.skip(2));
                }
                match parse_pub_entries(body, 2, plen) {
                    Err(e) => Err(e),
                    Ok(names) => Ok(
                        OmfRecordData::PubDef {
                            base_group_index,
                            base_segment_index,
                            base_frame: 0u16,
                            names,
                        },
                    ),
                }
            }
        }
    } else if tag == 0x96 {
        proof {
            assert(body@.subrange(0, plen as int) =~= p);
        }
        match parse_name_entries(body, 0, plen) {
            Err(e) => Err(e),
            Ok(names) => Ok(OmfRecordData::LNames { names }),
        }
    } else if tag == 0x98 {
        if plen < 1 {
            Err(OmfError::Length)
        } else {
            let tmp = body[0];
            let alignment = match SegmentAlignment::from_u8(tmp >> 5) {
                Some(a) => a,
                None => {
                    return Err(OmfError::Alignment);
                },
            };
            let combination = match SegmentCombination::from_u8((tmp >> 2) & 3) {
                Some(c) => c,
                None => {
                    return Err(OmfError::Combination);
                },
            };
            let big = tmp & 2 != 0;
            let bd32bit = tmp & 1 != 0;
            if alignment == SegmentAlignment::AbsoluteSegment {
                if plen != 9 {
                    Err(OmfError::Length)
                } else {
                    let frame_number = (body[1] as u16) + 256 * (body[2] as u16);
                    let segment_length = (body[4] as u16) + 256 * (body[5] as u16);
                    proof {
                        assert(frame_number == spec_le16(p, 1) as u16);
                        assert(segment_length == spec_le16(p, 4) as u16);
                    }
                    Ok(
                        OmfRecordData::SegDef {
                            segment_attributes: SegmentAttributes {
                                alignment,
                                combination,
                                big,
                                bd32bit,
                                absolute_segment_address: Some(
                                    AbsoluteSegmentAddress { frame_number, offset: body[3] },
                                ),
                            },
                            segment_length,
                            segment_name_index: body[6],
                            class_name_index: body[7],
                            overlay_name_index: body[8],
                        },
                    )
                }
            } else {
                if plen != 6 {
                    Err(OmfError::Length)
                } else {
                    let segment_length = (body[1] as u16) + 256 * (body[2] as u16);
                    proof {
                        assert(segment_length == spec_le16(p, 1) as u16);
                    }
                    Ok(
                        OmfRecordData::SegDef {
                            segment_attributes: SegmentAttributes {
                                alignment,
                                combination,
                                big,
                                bd32bit,
                                absolute_segment_address: None,
                            },
                            segment_length,
                            segment_name_index: body[3],
                            class_name_index: body[4],
                            overlay_name_index: body[5],
                        },
                    )
                }
            }
        }
    } else if tag == 0x9A {
        if plen < 1 {
            Err(OmfError::Length)
        } else {
            let group_name_index = body[0];
            proof {
                assert(body@.subrange(1, plen as int) =~= p.skip(1));
            }
            match parse_group_entries(body, 1, plen) {
                Err(e) => Err(e),
                Ok(segment_definitions) => Ok(
                    OmfRecordData::GrpDef { group_name_index, segment_definitions },
                ),
            }
        }
    } else if tag == 0xA0 {
        if plen < 3 {
            Err(OmfError::Length)
        } else {
            let segment_index = body[0];
            let enumerated_data_offset = (body[1] as u16) + 256 * (body[2] as u16);
            let data = bytes_range(body, 3, plen);
            proof {
                assert(enumerated_data_offset == spec_le16(p, 1) as u16);
                assert(data@ =~= p.skip(3));
            }
            Ok(OmfRecordData::LEData { segment_index, enumerated_data_offset, data })
        }
    } else {
        let data = bytes_range(body, 0, plen);
        proof {
            assert(data@ =~= p);
        }
        Ok(OmfRecordData::Unknown { data })
    }
}

impl OmfReader {
    /// Decode the next record, if any: read the tag byte (none left is a
    /// clean end of stream), the declared length, the payload and the
    /// checksum byte, growing the module state for definition-style records.
    /// The payload must fill the declared length exactly; any shortfall or
    /// overrun fails rather than desynchronising the stream.
    pub fn get_next_record(&mut self) -> (r: Result<Option<OmfRecord>, OmfError>)
        ensures
            final(self)@.data == old(self)@.data,
            r matches Ok(opt) ==> (match opt {
                None => spec_next_record(old(self)@.data, old(self)@.pos, old(self)@.info) == Ok::<
                    Option<(OmfRecordV, OmfInfoV, int)>,
                    OmfError,
                >(None) && final(self)@.pos == old(self)@.pos && final(self)@.info == old(
                    self,
                )@.info,
                Some(rec) => spec_next_record(old(self)@.data, old(self)@.pos, old(self)@.info)
                    == Ok::<Option<(OmfRecordV, OmfInfoV, int)>, OmfError>(
                    Some((rec@, final(self)@.info, final(self)@.pos)),
                ) && rec.info_spec() == final(self)@.info,
            }),
            r matches Err(e) ==> spec_next_record(old(self)@.data, old(self)@.pos, old(self)@.info)
                == Err::<Option<(OmfRecordV, OmfInfoV, int)>, OmfError>(e),
    {
        if self.pos == self.data.len() {
            return Ok(None);
        }
        let record_type = match self.read_u8() {
            Ok(v) => v,
            Err(e) => {
                return Err(e);
            },
        };
        let record_length_word = match self.read_u16() {
            Ok(v) => v,
            Err(e) => {
                return Err(e);
            },
        };
        let record_length = record_length_word as usize;
        let total = if record_type == 0x80 {
            record_length + 1
        } else {
            record_length
        };
        if total < 1 {
            return Err(OmfError::Length);
        }
        let body = match self.read_bytes(total) {
            Ok(v) => v,
            Err(e) => {
                return Err(e);
            },
        };
        let plen = total - 1;
        let checksum = body[plen];
        let data = match parse_payload(record_type, &body, plen) {
            Ok(d) => d,
            Err(e) => {
                return Err(e);
            },
        };
        match &data {
            OmfRecordData::LNames { names } => {
                self.info.append_names(names);
            },
            OmfRecordData::SegDef {
                segment_attributes,
                segment_length,
                segment_name_index,
                class_name_index,
                overlay_name_index,
            } => {
                self.info.append_segment(
                    SegmentInfo {
                        segment_attributes: *segment_attributes,
                        segment_length: *segment_length,
                        segment_name_index: *segment_name_index,
                        class_name_index: *class_name_index,
                        overlay_name_index: *overlay_name_index,
                    },
                );
            },
            OmfRecordData::GrpDef { group_name_index, segment_definitions } => {
                self.info.append_group(
                    GroupInfo {
                        group_name_index: *group_name_index,
                        segment_definitions: copy_components(segment_definitions),
                    },
                );
            },
            _ => {},
        }
        proof {
            assert(self@.info =~~= spec_state_after(old(self)@.info, data@));
        }
        let snap = self.info.snapshot();
        let rec = OmfRecord::new(record_type, record_length, data, checksum, snap);
        Ok(Some(rec))
    }
}

/// Decoding is deterministic: the outcome of one pull is a function of the
/// stream bytes, the cursor position and the module state alone, so equal
/// streams decode identically; the rendered text of a record is likewise a
/// function of the record and the state image alone.
pub proof fn lemma_decode_deterministic(b1: Seq<u8>, b2: Seq<u8>, pos: int, st: OmfInfoV)
    requires
        b1 == b2,
    ensures
        spec_next_record(b1, pos, st) == spec_next_record(b2, pos, st),
{
}

/// A successfully decoded record advances the cursor by exactly the tag
/// byte, the two length bytes, and the declared length (payload plus
/// checksum): the payload fills its declared budget exactly, and a payload
/// that cannot is refused rather than decoded out of step.
pub proof fn lemma_consumption_exact(
    b: Seq<u8>,
    pos: int,
    st: OmfInfoV,
    rec: OmfRecordV,
    st2: OmfInfoV,
    pos2: int,
)
    requires
        0 <= pos,
        spec_next_record(b, pos, st) == Ok::<Option<(OmfRecordV, OmfInfoV, int)>, OmfError>(
            Some((rec, st2, pos2)),
        ),
    ensures
        0 <= rec.record_length <= 0xFFFF,
        rec.record_type == 0x80 ==> pos2 == pos + 3 + rec.record_length + 1,
        rec.record_type != 0x80 ==> 1 <= rec.record_length && pos2 == pos + 3
            + rec.record_length,
        pos2 <= b.len(),
        rec.record_type == b[pos],
        rec.record_length == spec_le16(b, pos + 1),
        rec.checksum == b[pos2 - 1],
{
    assert(pos != b.len());
    assert(pos + 3 <= b.len());
    let len = spec_le16(b, pos + 1);
    let total = if b[pos] == 0x80 {
        len + 1
    } else {
        len
    };
    assert(total >= 1);
    assert(pos + 3 + total <= b.len());
    assert(rec.record_type == b[pos] && rec.record_length == len && pos2 == pos + 3 + total);
    let body = b.subrange(pos + 3, pos + 3 + total);
    assert(body.len() == total);
    assert(body[total - 1] == b[pos + 3 + (total - 1)]);
    assert(rec.checksum == body[total - 1]);
}

/// The module-state tables grow monotonically and only through their
/// designated record kinds: a list of `k` names grows the names table by
/// exactly `k`, a segment definition appends exactly one segment, a group
/// definition appends exactly one group, every other payload changes
/// nothing, and no entry already appended is ever altered.
pub proof fn lemma_state_growth(st: OmfInfoV, d: OmfRecordDataV)
    ensures
        st.names.len() <= spec_state_after(st, d).names.len(),
        st.segments.len() <= spec_state_after(st, d).segments.len(),
        st.groups.len() <= spec_state_after(st, d).groups.len(),
        forall|i: int|
            0 <= i < st.names.len() ==> spec_state_after(st, d).names[i] == st.names[i],
        forall|i: int|
            0 <= i < st.segments.len() ==> spec_state_after(st, d).segments[i] == st.segments[i],
        forall|i: int|
            0 <= i < st.groups.len() ==> spec_state_after(st, d).groups[i] == st.groups[i],
        d matches OmfRecordDataV::LNames { names } ==> spec_state_after(st, d).names.len()
            == st.names.len() + names.len(),
        d matches OmfRecordDataV::SegDef { .. } ==> spec_state_after(st, d).segments.len()
            == st.segments.len() + 1,
        d matches OmfRecordDataV::GrpDef { .. } ==> spec_state_after(st, d).groups.len()
            == st.groups.len() + 1,
        !(d matches OmfRecordDataV::LNames { .. }) ==> spec_state_after(st, d).names
            == st.names,
        !(d matches OmfRecordDataV::SegDef { .. }) ==> spec_state_after(st, d).segments
            == st.segments,
        !(d matches OmfRecordDataV::GrpDef { .. }) ==> spec_state_after(st, d).groups
            == st.groups,
{
}

/// Index value zero is the "absent" sentinel: resolving it in any of the
/// three tables always fails with the table's index error.
pub proof fn lemma_resolve_zero_fails(st: OmfInfoV)
    ensures
        crate::record::spec_resolve_name(st, 0) == Err::<Seq<char>, OmfError>(OmfError::NameIndex),
        crate::record::spec_resolve_segment(st, 0) == Err::<SegmentInfo, OmfError>(
            OmfError::SegmentIndex,
        ),
        crate::record::spec_resolve_group(st, 0) == Err::<GroupInfoV, OmfError>(
            OmfError::GroupIndex,
        ),
{
}

/// Resolving an index past the current table length fails with an index
/// error, and a resolution that succeeds reads only entries already
/// appended: decoding any further record never changes what an in-range
/// index resolves to.
pub proof fn lemma_resolve_reads_only_past(st: OmfInfoV, d: OmfRecordDataV, idx: u8)
    ensures
        idx > st.names.len() ==> crate::record::spec_resolve_name(st, idx) == Err::<
            Seq<char>,
            OmfError,
        >(OmfError::NameIndex),
        idx > st.segments.len() ==> crate::record::spec_resolve_segment(st, idx) == Err::<
            SegmentInfo,
            OmfError,
        >(OmfError::SegmentIndex),
        idx > st.groups.len() ==> crate::record::spec_resolve_group(st, idx) == Err::<
            GroupInfoV,
            OmfError,
        >(OmfError::GroupIndex),
        1 <= idx <= st.names.len() ==> crate::record::spec_resolve_name(
            spec_state_after(st, d),
            idx,
        ) == crate::record::spec_resolve_name(st, idx),
        1 <= idx <= st.segments.len() ==> crate::record::spec_resolve_segment(
            spec_state_after(st, d),
            idx,
        ) == crate::record::spec_resolve_segment(st, idx),
        1 <= idx <= st.groups.len() ==> crate::record::spec_resolve_group(
            spec_state_after(st, d),
            idx,
        ) == crate::record::spec_resolve_group(st, idx),
{
    lemma_state_growth(st, d);
}

} // verus!

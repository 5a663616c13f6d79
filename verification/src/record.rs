use vstd::prelude::*;

use crate::error::OmfError;
use crate::GroupInfo;
use crate::OmfInfo;
use crate::SegmentInfo;

verus! {

/// Flag bits of a Comment record. Both flags are taken from bit 7 of the flag
/// byte; the listing bit is not read separately.
#[derive(Debug, Clone, Copy, PartialEq, Eq, Structural)]
pub struct CommentType {
    pub no_purge: bool,
    pub no_list: bool,
}

/// Optional start-address block of a Module End record.
#[derive(Debug, Clone, Copy, PartialEq, Eq, Structural)]
pub enum MAttrStart {
    NoStart,
    Start { end_data: u8, frame_datum: u8, target_datum: u8, target_displacement: u16 },
}

/// One entry of a Public Names Def record.
#[derive(Debug)]
pub struct PubName {
    pub name: String,
    pub public_offset: u16,
    pub type_index: u8,
}

/// Mathematical image of a `PubName`.
pub struct PubNameV {
    pub name: Seq<char>,
    pub public_offset: u16,
    pub type_index: u8,
}

impl View for PubName {
    type V = PubNameV;

    open spec fn view(&self) -> PubNameV {
        PubNameV {
            name: self.name@,
            public_offset: self.public_offset,
            type_index: self.type_index,
        }
    }
}

/// One entry of an External Names Def record.
#[derive(Debug)]
pub struct ExtName {
    pub name: String,
    pub type_index: u8,
}

/// Mathematical image of an `ExtName`.
pub struct ExtNameV {
    pub name: Seq<char>,
    pub type_index: u8,
}

impl View for ExtName {
    type V = ExtNameV;

    open spec fn view(&self) -> ExtNameV {
        ExtNameV { name: self.name@, type_index: self.type_index }
    }
}

/// Alignment class of a segment, the top three bits of the attribute byte.
#[derive(Debug, Clone, Copy, PartialEq, Eq, Structural)]
pub enum SegmentAlignment {
    AbsoluteSegment,
    RelocatableByteAligned,
    RelocatableWordAligned,
    RelocatableParagraphAligned,
    RelocatablePageAligned,
    RelocatableDWordAligned,
}

/// The alignment class a three-bit field denotes, if any.
pub open spec fn spec_alignment_from(v: u8) -> Option<SegmentAlignment> {
    if v == 0 {
        Some(SegmentAlignment::AbsoluteSegment)
    } else if v == 1 {
        Some(SegmentAlignment::RelocatableByteAligned)
    } else if v == 2 {
        Some(SegmentAlignment::RelocatableWordAligned)
    } else if v == 3 {
        Some(SegmentAlignment::RelocatableParagraphAligned)
    } else if v == 4 {
        Some(SegmentAlignment::RelocatablePageAligned)
    } else if v == 5 {
        Some(SegmentAlignment::RelocatableDWordAligned)
    } else {
        None
    }
}

impl SegmentAlignment {
    /// Decode the three-bit alignment field; values outside the closed
    /// enumeration yield nothing.
    pub fn from_u8(v: u8) -> (r: Option<SegmentAlignment>)
        ensures
            r == spec_alignment_from(v),
    {
        match v {
            0 => Some(SegmentAlignment::AbsoluteSegment),
            1 => Some(SegmentAlignment::RelocatableByteAligned),
            2 => Some(SegmentAlignment::RelocatableWordAligned),
            3 => Some(SegmentAlignment::RelocatableParagraphAligned),
            4 => Some(SegmentAlignment::RelocatablePageAligned),
            5 => Some(SegmentAlignment::RelocatableDWordAligned),
            _ => None,
        }
    }
}

/// Combination class of a segment, two bits of the attribute byte.
#[derive(Debug, Clone, Copy, PartialEq, Eq, Structural)]
pub enum SegmentCombination {
    Private,
    Public,
    Public2,
    Stack,
    Common,
    Public3,
}

/// The combination class a field value denotes, if any.
pub open spec fn spec_combination_from(v: u8) -> Option<SegmentCombination> {
    if v == 0 {
        Some(SegmentCombination::Private)
    } else if v == 2 {
        Some(SegmentCombination::Public)
    } else if v == 4 {
        Some(SegmentCombination::Public2)
    } else if v == 5 {
        Some(SegmentCombination::Stack)
    } else if v == 6 {
        Some(SegmentCombination::Common)
    } else if v == 7 {
        Some(SegmentCombination::Public3)
    } else {
        None
    }
}

impl SegmentCombination {
    /// Decode the combination field; values outside the closed enumeration
    /// yield nothing.
    pub fn from_u8(v: u8) -> (r: Option<SegmentCombination>)
        ensures
            r == spec_combination_from(v),
    {
        match v {
            0 => Some(SegmentCombination::Private),
            2 => Some(SegmentCombination::Public),
            4 => Some(SegmentCombination::Public2),
            5 => Some(SegmentCombination::Stack),
            6 => Some(SegmentCombination::Common),
            7 => Some(SegmentCombination::Public3),
            _ => None,
        }
    }
}

/// Frame and offset of an absolute segment.
#[derive(Debug, Clone, Copy, PartialEq, Eq, Structural)]
pub struct AbsoluteSegmentAddress {
    pub frame_number: u16,
    pub offset: u8,
}

/// The decoded attribute byte of a Segment Def record.
#[derive(Debug, Clone, Copy)]
pub struct SegmentAttributes {
    pub alignment: SegmentAlignment,
    pub combination: SegmentCombination,
    pub big: bool,
    pub bd32bit: bool,
    pub absolute_segment_address: Option<AbsoluteSegmentAddress>,
}

/// One (index, segment-definition-index) pair of a Group Def record.
#[derive(Debug, Clone, Copy, PartialEq, Eq, Structural)]
pub struct GroupComponent {
    pub index: u8,
    pub segment_definition: u8,
}

/// The typed payload of one record: one variant per supported tag, and an
/// opaque fallback for every other tag.
#[derive(Debug)]
#[allow(inconsistent_fields)]
pub enum OmfRecordData {
    THeadr { name: String },
    Coment { comment_type: CommentType, comment_class: u8, comment_bytes: Vec<u8> },
    ModEnd { main: bool, start: MAttrStart },
    ExtDef { names: Vec<ExtName> },
    PubDef { base_group_index: u8, base_segment_index: u8, base_frame: u16, names: Vec<PubName> },
    LNames { names: Vec<String> },
    SegDef {
        segment_attributes: SegmentAttributes,
        segment_length: u16,
        segment_name_index: u8,
        class_name_index: u8,
        overlay_name_index: u8,
    },
    GrpDef { group_name_index: u8, segment_definitions: Vec<GroupComponent> },
    LEData { segment_index: u8, enumerated_data_offset: u16, data: Vec<u8> },
    Unknown { data: Vec<u8> },
}

/// Mathematical image of a decoded payload.
#[allow(inconsistent_fields)]
pub enum OmfRecordDataV {
    THeadr { name: Seq<char> },
    Coment { comment_type: CommentType, comment_class: u8, comment_bytes: Seq<u8> },
    ModEnd { main: bool, start: MAttrStart },
    ExtDef { names: Seq<ExtNameV> },
    PubDef {
        base_group_index: u8,
        base_segment_index: u8,
        base_frame: u16,
        names: Seq<PubNameV>,
    },
    LNames { names: Seq<Seq<char>> },
    SegDef {
        segment_attributes: SegmentAttributes,
        segment_length: u16,
        segment_name_index: u8,
        class_name_index: u8,
        overlay_name_index: u8,
    },
    GrpDef { group_name_index: u8, segment_definitions: Seq<GroupComponent> },
    LEData { segment_index: u8, enumerated_data_offset: u16, data: Seq<u8> },
    Unknown { data: Seq<u8> },
}

impl View for OmfRecordData {
    type V = OmfRecordDataV;

    open spec fn view(&self) -> OmfRecordDataV {
        match self {
            OmfRecordData::THeadr { name } => OmfRecordDataV::THeadr { name: name@ },
            OmfRecordData::Coment { comment_type, comment_class, comment_bytes } => (
            OmfRecordDataV::Coment {
                comment_type: *comment_type,
                comment_class: *comment_class,
                comment_bytes: comment_bytes@,
            }),
            OmfRecordData::ModEnd { main, start } => (OmfRecordDataV::ModEnd {
                main: *main,
                start: *start,
            }),
            OmfRecordData::ExtDef { names } => (OmfRecordDataV::ExtDef {
                names: Seq::new(names@.len(), |i: int| names@[i]@),
            }),
            OmfRecordData::PubDef { base_group_index, base_segment_index, base_frame, names } => (
            OmfRecordDataV::PubDef {
                base_group_index: *base_group_index,
                base_segment_index: *base_segment_index,
                base_frame: *base_frame,
                names: Seq::new(names@.len(), |i: int| names@[i]@),
            }),
            OmfRecordData::LNames { names } => (OmfRecordDataV::LNames {
                names: Seq::new(names@.len(), |i: int| names@[i]@),
            }),
            OmfRecordData::SegDef {
                segment_attributes,
                segment_length,
                segment_name_index,
                class_name_index,
                overlay_name_index,
            } => (OmfRecordDataV::SegDef {
                segment_attributes: *segment_attributes,
                segment_length: *segment_length,
                segment_name_index: *segment_name_index,
                class_name_index: *class_name_index,
                overlay_name_index: *overlay_name_index,
            }),
            OmfRecordData::GrpDef { group_name_index, segment_definitions } => (
            OmfRecordDataV::GrpDef {
                group_name_index: *group_name_index,
                segment_definitions: segment_definitions@,
            }),
            OmfRecordData::LEData { segment_index, enumerated_data_offset, data } => (
            OmfRecordDataV::LEData {
                segment_index: *segment_index,
                enumerated_data_offset: *enumerated_data_offset,
                data: data@,
            }),
            OmfRecordData::Unknown { data } => OmfRecordDataV::Unknown { data: data@ },
        }
    }
}

/// One decoded record: tag, declared length, typed payload, trailing checksum
/// byte (read, never validated), and a snapshot of the module state as it
/// stood right after this record was decoded, for resolving indices later.
#[derive(Debug)]
pub struct OmfRecord {
    pub record_type: u8,
    pub record_length: usize,
    pub data: OmfRecordData,
    pub checksum: u8,
    pub info: OmfInfo,
}

/// Mathematical image of a record, without its module-state snapshot.
pub struct OmfRecordV {
    pub record_type: u8,
    pub record_length: int,
    pub data: OmfRecordDataV,
    pub checksum: u8,
}

impl View for OmfRecord {
    type V = OmfRecordV;

    open spec fn view(&self) -> OmfRecordV {
        OmfRecordV {
            record_type: self.record_type,
            record_length: self.record_length as int,
            data: self.data@,
            checksum: self.checksum,
        }
    }
}

impl OmfRecord {
    /// The module-state snapshot this record resolves its indices against.
    pub open spec fn info_spec(&self) -> crate::OmfInfoV {
        self.info@
    }

    pub fn new(
        record_type: u8,
        record_length: usize,
        data: OmfRecordData,
        checksum: u8,
        info: OmfInfo,
    ) -> (r: OmfRecord)
        ensures
            r@.record_type == record_type,
            r@.record_length == record_length as int,
            r@.data == data@,
            r@.checksum == checksum,
            r.info_spec() == info@,
    {
        OmfRecord { record_type, record_length, data, checksum, info }
    }

    /// Resolve a 1-based name index against the snapshot: zero and
    /// out-of-range indices fail with an index error.
    pub fn name_from_index(&self, index: u8) -> (r: Result<String, OmfError>)
        ensures
            1 <= index <= self.info_spec().names.len() ==> (r matches Ok(s) && s@
                == self.info_spec().names[index - 1]),
            index == 0 || index > self.info_spec().names.len() ==> r == Err::<String, OmfError>(
                OmfError::NameIndex,
            ),
    {
        self.info.resolve_name(index)
    }

    /// Resolve a 1-based segment index against the snapshot.
    pub fn get_segment(&self, index: u8) -> (r: Result<SegmentInfo, OmfError>)
        ensures
            1 <= index <= self.info_spec().segments.len() ==> r == Ok::<SegmentInfo, OmfError>(
                self.info_spec().segments[index - 1],
            ),
            index == 0 || index > self.info_spec().segments.len() ==> r == Err::<
                SegmentInfo,
                OmfError,
            >(OmfError::SegmentIndex),
    {
        self.info.resolve_segment(index)
    }

    /// Resolve a 1-based group index against the snapshot.
    pub fn get_group(&self, index: u8) -> (r: Result<GroupInfo, OmfError>)
        ensures
            1 <= index <= self.info_spec().groups.len() ==> (r matches Ok(g) && g@
                == self.info_spec().groups[index - 1]),
            index == 0 || index > self.info_spec().groups.len() ==> r == Err::<GroupInfo, OmfError>(
                OmfError::GroupIndex,
            ),
    {
        self.info.resolve_group(index)
    }
}

/// What the alignment class renders as.
pub open spec fn spec_alignment_text(a: SegmentAlignment) -> Seq<char> {
    match a {
        SegmentAlignment::AbsoluteSegment => "absolute segment"@,
        SegmentAlignment::RelocatableByteAligned => "relocatable, byte aligned"@,
        SegmentAlignment::RelocatableWordAligned => "relocatable, word aligned"@,
        SegmentAlignment::RelocatableParagraphAligned => "relocatable, paragraph aligned"@,
        SegmentAlignment::RelocatablePageAligned => "relocatable, page aligned"@,
        SegmentAlignment::RelocatableDWordAligned => "relocatable, double word aligned"@,
    }
}

/// What the combination class renders as.
pub open spec fn spec_combination_text(c: SegmentCombination) -> Seq<char> {
    match c {
        SegmentCombination::Private => "private"@,
        SegmentCombination::Public => "public"@,
        SegmentCombination::Public2 => "public"@,
        SegmentCombination::Stack => "stack"@,
        SegmentCombination::Common => "common"@,
        SegmentCombination::Public3 => "public"@,
    }
}

/// Resolving a 1-based name index against a state image.
pub open spec fn spec_resolve_name(st: crate::OmfInfoV, idx: u8) -> Result<Seq<char>, OmfError> {
    if 1 <= idx && idx <= st.names.len() {
        Ok(st.names[idx - 1])
    } else {
        Err(OmfError::NameIndex)
    }
}

/// Resolving a 1-based segment index against a state image.
pub open spec fn spec_resolve_segment(st: crate::OmfInfoV, idx: u8) -> Result<
    SegmentInfo,
    OmfError,
> {
    if 1 <= idx && idx <= st.segments.len() {
        Ok(st.segments[idx - 1])
    } else {
        Err(OmfError::SegmentIndex)
    }
}

/// Resolving a 1-based group index against a state image.
pub open spec fn spec_resolve_group(st: crate::OmfInfoV, idx: u8) -> Result<
    crate::GroupInfoV,
    OmfError,
> {
    if 1 <= idx && idx <= st.groups.len() {
        Ok(st.groups[idx - 1])
    } else {
        Err(OmfError::GroupIndex)
    }
}

/// The rendered lines of External Names Def entries from `i` on: ordinal,
/// name, and decimal type index.
pub open spec fn spec_ext_lines(names: Seq<ExtNameV>, i: int) -> Seq<char>
    decreases names.len() - i,
{
    if i < 0 || i >= names.len() {
        Seq::<char>::empty()
    } else {
        "    "@ + crate::text::spec_pad4(crate::text::spec_dec(i as nat)) + " "@ + names[i].name
            + " type "@ + crate::text::spec_dec(names[i].type_index as nat) + "\n"@
            + spec_ext_lines(names, i + 1)
    }
}

/// The rendered lines of Public Names Def entries from `i` on: name,
/// hexadecimal offset, decimal type index.
pub open spec fn spec_pub_lines(names: Seq<PubNameV>, i: int) -> Seq<char>
    decreases names.len() - i,
{
    if i < 0 || i >= names.len() {
        Seq::<char>::empty()
    } else {
        "        "@ + names[i].name + " offset "@ + crate::text::spec_hex4(names[i].public_offset)
            + " type "@ + crate::text::spec_dec(names[i].type_index as nat) + "\n"@
            + spec_pub_lines(names, i + 1)
    }
}

/// The rendered lines of a List of Names from `i` on: 1-based ordinal and
/// the name.
pub open spec fn spec_lnames_lines(names: Seq<Seq<char>>, i: int) -> Seq<char>
    decreases names.len() - i,
{
    if i < 0 || i >= names.len() {
        Seq::<char>::empty()
    } else {
        "    "@ + crate::text::spec_pad4(crate::text::spec_dec((i + 1) as nat)) + " "@ + names[i]
            + "\n"@ + spec_lnames_lines(names, i + 1)
    }
}

/// The rendered lines of Group Def components from `i` on: ordinal, the
/// referenced segment's resolved name, and the segment-definition index.
/// Fails on the first unresolvable reference.
pub open spec fn spec_grp_lines(comps: Seq<GroupComponent>, i: int, st: crate::OmfInfoV) -> Result<
    Seq<char>,
    OmfError,
>
    decreases comps.len() - i,
{
    if i < 0 || i >= comps.len() {
        Ok(Seq::<char>::empty())
    } else {
        match spec_resolve_segment(st, comps[i].segment_definition) {
            Err(e) => Err(e),
            Ok(seg) => match spec_resolve_name(st, seg.segment_name_index) {
                Err(e) => Err(e),
                Ok(name) => match spec_grp_lines(comps, i + 1, st) {
                    Err(e) => Err(e),
                    Ok(rest) => Ok(
                        "        "@ + crate::text::spec_pad4(crate::text::spec_dec(i as nat))
                            + " "@ + name + " ("@ + crate::text::spec_dec(
                            comps[i].segment_definition as nat,
                        ) + ")\n"@ + rest,
                    ),
                },
            },
        }
    }
}

/// The full rendered text block of one record against a state image, or the
/// first index error hit while resolving its references.
pub open spec fn spec_render(rec: OmfRecordV, st: crate::OmfInfoV) -> Result<Seq<char>, OmfError> {
    let header = "Record type "@ + crate::text::spec_hex2(rec.record_type) + "h length "@
        + crate::text::spec_dec(rec.record_length as nat) + "\n"@;
    match rec.data {
        OmfRecordDataV::THeadr { name } => Ok(
            header + "Translator Header:\n"@ + "    Name: "@ + name + "\n"@,
        ),
        OmfRecordDataV::Coment { comment_type, comment_class, comment_bytes } => Ok(
            header + "Comment - "@ + (if comment_type.no_purge {
                "no purge "@
            } else {
                ""@
            }) + (if comment_type.no_list {
                "no list "@
            } else {
                ""@
            }) + "class "@ + crate::text::spec_hex2(comment_class) + "\n"@
                + crate::text::hex_dump_of(comment_bytes) + "\n"@,
        ),
        OmfRecordDataV::ModEnd { main, start } => Ok(
            header + "Module End"@ + (if main {
                " (MAIN)"@
            } else {
                ""@
            }) + "\n"@ + (match start {
                MAttrStart::NoStart => Seq::<char>::empty(),
                MAttrStart::Start { end_data, frame_datum, target_datum, target_displacement } => (
                "    End data: "@ + crate::text::spec_hex2(end_data) + ", frame: "@
                    + crate::text::spec_hex2(frame_datum) + ", target: "@
                    + crate::text::spec_hex2(target_datum) + ", displacement: "@
                    + crate::text::spec_hex4(target_displacement) + "\n"@),
            }),
        ),
        OmfRecordDataV::ExtDef { names } => Ok(
            header + "External Names Definition\n"@ + spec_ext_lines(names, 0),
        ),
        OmfRecordDataV::PubDef { base_group_index, base_segment_index, base_frame, names } => {
            let head = header + "Public Names Definition\n"@;
            let tail = "    Names:\n"@ + spec_pub_lines(names, 0);
            if base_group_index == 0 && base_segment_index == 0 {
                Ok(head + "    Base Frame: "@ + crate::text::spec_hex4(base_frame) + "\n"@ + tail)
            } else {
                let group_part = if base_group_index == 0 {
                    Ok("    Base Group: None\n"@)
                } else {
                    match spec_resolve_group(st, base_group_index) {
                        Err(e) => Err(e),
                        Ok(group) => match spec_resolve_name(st, group.group_name_index) {
                            Err(e) => Err(e),
                            Ok(name) => Ok(
                                "    Base Group: "@ + name + " ("@ + crate::text::spec_dec(
                                    base_group_index as nat,
                                ) + ")\n"@,
                            ),
                        },
                    }
                };
                match group_part {
                    Err(e) => Err(e),
                    Ok(gtext) => match spec_resolve_segment(st, base_segment_index) {
                        Err(e) => Err(e),
                        Ok(seg) => match spec_resolve_name(st, seg.segment_name_index) {
                            Err(e) => Err(e),
                            Ok(sname) => Ok(
                                head + gtext + "    Base Segment: "@ + sname + " ("@
                                    + crate::text::spec_dec(base_segment_index as nat) + ")\n"@
                                    + tail,
                            ),
                        },
                    },
                }
            }
        },
        OmfRecordDataV::LNames { names } => Ok(
            header + "List of Names\n"@ + spec_lnames_lines(names, 0),
        ),
        OmfRecordDataV::SegDef {
            segment_attributes,
            segment_length,
            segment_name_index,
            class_name_index,
            overlay_name_index,
        } => match spec_resolve_name(st, segment_name_index) {
            Err(e) => Err(e),
            Ok(sname) => match spec_resolve_name(st, class_name_index) {
                Err(e) => Err(e),
                Ok(cname) => match spec_resolve_name(st, overlay_name_index) {
                    Err(e) => Err(e),
                    Ok(oname) => Ok(
                        header + "Segment Definition - "@ + sname + " ("@ + crate::text::spec_dec(
                            segment_name_index as nat,
                        ) + ")\n"@ + "    Attributes: "@ + spec_alignment_text(
                            segment_attributes.alignment,
                        ) + "; "@ + spec_combination_text(segment_attributes.combination)
                            + " combination"@ + (if segment_attributes.big {
                            "; BIG"@
                        } else {
                            ""@
                        }) + (if segment_attributes.bd32bit {
                            "; USE32"@
                        } else {
                            ""@
                        }) + "\n"@ + "    Segment length: "@ + crate::text::spec_hex4(
                            segment_length,
                        ) + "\n"@ + "    Class name: "@ + cname + " ("@ + crate::text::spec_dec(
                            class_name_index as nat,
                        ) + ")\n"@ + "    Overlay name: "@ + oname + " ("@
                            + crate::text::spec_dec(overlay_name_index as nat) + ")\n"@,
                    ),
                },
            },
        },
        OmfRecordDataV::GrpDef { group_name_index, segment_definitions } => match spec_resolve_name(
            st,
            group_name_index,
        ) {
            Err(e) => Err(e),
            Ok(gname) => match spec_grp_lines(segment_definitions, 0, st) {
                Err(e) => Err(e),
                Ok(lines) => Ok(
                    header + "Group Definition - "@ + gname + " ("@ + crate::text::spec_dec(
                        group_name_index as nat,
                    ) + ")\n"@ + "    Segments:\n"@ + lines,
                ),
            },
        },
        OmfRecordDataV::LEData { segment_index, enumerated_data_offset, data } => (
        match spec_resolve_segment(st, segment_index) {
            Err(e) => Err(e),
            Ok(seg) => match spec_resolve_name(st, seg.segment_name_index) {
                Err(e) => Err(e),
                Ok(sname) => Ok(
                    header + "Logical Enumerated Data - "@ + sname + " ("@
                        + crate::text::spec_dec(segment_index as nat) + ") offset "@
                        + crate::text::spec_hex4(enumerated_data_offset) + "h\n"@
                        + crate::text::hex_dump_of(data) + "\n"@,
                ),
            },
        }),
        OmfRecordDataV::Unknown { data } => Ok(
            header + "Unknown Data\n"@ + crate::text::hex_dump_of(data) + "\n"@,
        ),
    }
}

impl SegmentAlignment {
    /// The rendered description of this alignment class.
    pub fn description(&self) -> (r: &'static str)
        ensures
            r@ == spec_alignment_text(*self),
    {
        match self {
            SegmentAlignment::AbsoluteSegment => "absolute segment",
            SegmentAlignment::RelocatableByteAligned => "relocatable, byte aligned",
            SegmentAlignment::RelocatableWordAligned => "relocatable, word aligned",
            SegmentAlignment::RelocatableParagraphAligned => "relocatable, paragraph aligned",
            SegmentAlignment::RelocatablePageAligned => "relocatable, page aligned",
            SegmentAlignment::RelocatableDWordAligned => "relocatable, double word aligned",
        }
    }
}

impl SegmentCombination {
    /// The rendered description of this combination class.
    pub fn description(&self) -> (r: &'static str)
        ensures
            r@ == spec_combination_text(*self),
    {
        match self {
            SegmentCombination::Private => "private",
            SegmentCombination::Public => "public",
            SegmentCombination::Public2 => "public",
            SegmentCombination::Stack => "stack",
            SegmentCombination::Common => "common",
            SegmentCombination::Public3 => "public",
        }
    }
}

/// The rendered External Names Def entry lines from `i` on.
fn ext_lines(names: &Vec<ExtName>, i: usize) -> (r: String)
    requires
        i <= names@.len(),
    ensures
        r@ == spec_ext_lines(Seq::new(names@.len(), |k: int| names@[k]@), i as int),
    decreases names@.len() - i,
{
    if i == names.len() {
        String::new()
    } else {
        let mut line = "    ".to_owned();
        line.append(crate::text::pad4(crate::text::dec_str(i)).as_str());
        line.append(" ");
        line.append(names[i].name.as_str());
        line.append(" type ");
        line.append(crate::text::dec_str(names[i].type_index as usize).as_str());
        line.append("\n");
        let rest = ext_lines(names, i + 1);
        line.append(rest.as_str());
        proof {
            assert(line@ =~= spec_ext_lines(Seq::new(names@.len(), |k: int| names@[k]@), i as int));
        }
        line
    }
}

/// The rendered Public Names Def entry lines from `i` on.
fn pub_lines(names: &Vec<PubName>, i: usize) -> (r: String)
    requires
        i <= names@.len(),
    ensures
        r@ == spec_pub_lines(Seq::new(names@.len(), |k: int| names@[k]@), i as int),
    decreases names@.len() - i,
{
    if i == names.len() {
        String::new()
    } else {
        let mut line = "        ".to_owned();
        line.append(names[i].name.as_str());
        line.append(" offset ");
        line.append(crate::text::hex4_str(names[i].public_offset).as_str());
        line.append(" type ");
        line.append(crate::text::dec_str(names[i].type_index as usize).as_str());
        line.append("\n");
        let rest = pub_lines(names, i + 1);
        line.append(rest.as_str());
        proof {
            assert(line@ =~= spec_pub_lines(Seq::new(names@.len(), |k: int| names@[k]@), i as int));
        }
        line
    }
}

/// The rendered List of Names lines from `i` on.
fn lnames_lines(names: &Vec<String>, i: usize) -> (r: String)
    requires
        i <= names@.len(),
    ensures
        r@ == spec_lnames_lines(Seq::new(names@.len(), |k: int| names@[k]@), i as int),
    decreases names@.len() - i,
{
    if i == names.len() {
        String::new()
    } else {
        let mut line = "    ".to_owned();
        line.append(crate::text::pad4(crate::text::dec_str(i + 1)).as_str());
        line.append(" ");
        line.append(names[i].as_str());
        line.append("\n");
        let rest = lnames_lines(names, i + 1);
        line.append(rest.as_str());
        proof {
            assert(line@ =~= spec_lnames_lines(
                Seq::new(names@.len(), |k: int| names@[k]@),
                i as int,
            ));
        }
        line
    }
}

/// The rendered Group Def component lines from `i` on, resolving each
/// referenced segment and its name.
fn grp_lines(comps: &Vec<GroupComponent>, i: usize, info: &OmfInfo) -> (r: Result<String, OmfError>)
    requires
        i <= comps@.len(),
    ensures
        r matches Ok(s) ==> spec_grp_lines(comps@, i as int, info@) == Ok::<Seq<char>, OmfError>(
            s@,
        ),
        r matches Err(e) ==> spec_grp_lines(comps@, i as int, info@) == Err::<Seq<char>, OmfError>(
            e,
        ),
    decreases comps@.len() - i,
{
    if i == comps.len() {
        Ok(String::new())
    } else {
        let sd = comps[i].segment_definition;
        let seg = match info.resolve_segment(sd) {
            Ok(s) => s,
            Err(e) => {
                return Err(e);
            },
        };
        let name = match info.resolve_name(seg.segment_name_index) {
            Ok(s) => s,
            Err(e) => {
                return Err(e);
            },
        };
        let rest = match grp_lines(comps, i + 1, info) {
            Ok(s) => s,
            Err(e) => {
                return Err(e);
            },
        };
        let mut line = "        ".to_owned();
        line.append(crate::text::pad4(crate::text::dec_str(i)).as_str());
        line.append(" ");
        line.append(name.as_str());
        line.append(" (");
        line.append(crate::text::dec_str(sd as usize).as_str());
        line.append(")\n");
        line.append(rest.as_str());
        proof {
            assert(spec_grp_lines(comps@, i as int, info@) is Ok);
            assert(line@ =~= spec_grp_lines(comps@, i as int, info@)->Ok_0);
        }
        Ok(line)
    }
}

impl OmfRecord {
    /// Render this record as its multi-line text block, resolving name,
    /// segment and group indices against the record's state snapshot;
    /// an unresolvable reference fails with the matching index error.
    #[verifier::rlimit(100)]
    #[verifier::spinoff_prover]
    pub fn render(&self) -> (r: Result<String, OmfError>)
        ensures
            r matches Ok(s) ==> spec_render(self@, self.info_spec()) == Ok::<Seq<char>, OmfError>(
                s@,
            ),
            r matches Err(e) ==> spec_render(self@, self.info_spec()) == Err::<Seq<char>, OmfError>(
                e,
            ),
    {
        let mut out = "Record type ".to_owned();
        out.append(crate::text::hex2_str(self.record_type).as_str());
        out.append("h length ");
        out.append(crate::text::dec_str(self.record_length).as_str());
        out.append("\n");
        let ghost expected = spec_render(self@, self.info_spec());
        let ghost headerv = "Record type "@ + crate::text::spec_hex2(self.record_type)
            + "h length "@ + crate::text::spec_dec(self.record_length as nat) + "\n"@;
        match &self.data {
            OmfRecordData::THeadr { name } => {
                out.append("Translator Header:\n");
                out.append("    Name: ");
                out.append(name.as_str());
                out.append("\n");
                proof {
                    assert(expected == Ok::<Seq<char>, OmfError>(
                        headerv + "Translator Header:\n"@ + "    Name: "@ + name@ + "\n"@,
                    ));
                    assert(out@ =~= expected->Ok_0);
                }
                Ok(out)
            },
            OmfRecordData::Coment { comment_type, comment_class, comment_bytes } => {
                out.append("Comment - ");
                if comment_type.no_purge {
                    out.append("no purge ");
                } else {
                    out.append("");
                }
                if comment_type.no_list {
                    out.append("no list ");
                } else {
                    out.append("");
                }
                out.append("class ");
                out.append(crate::text::hex2_str(*comment_class).as_str());
                out.append("\n");
                out.append(crate::text::hex_dump(comment_bytes).as_str());
                out.append("\n");
                proof {
                    assert(expected == Ok::<Seq<char>, OmfError>(
                        headerv + "Comment - "@ + (if comment_type.no_purge {
                            "no purge "@
                        } else {
                            ""@
                        }) + (if comment_type.no_list {
                            "no list "@
                        } else {
                            ""@
                        }) + "class "@ + crate::text::spec_hex2(*comment_class) + "\n"@
                            + crate::text::hex_dump_of(comment_bytes@) + "\n"@,
                    ));
                    assert(out@ =~= expected->Ok_0);
                }
                Ok(out)
            },
            OmfRecordData::ModEnd { main, start } => {
                out.append("Module End");
                if *main {
                    out.append(" (MAIN)");
                } else {
                    out.append("");
                }
                out.append("\n");
                match start {
                    MAttrStart::NoStart => (),
                    MAttrStart::Start {
                        end_data,
                        frame_datum,
                        target_datum,
                        target_displacement,
                    } => {
                        out.append("    End data: ");
                        out.append(crate::text::hex2_str(*end_data).as_str());
                        out.append(", frame: ");
                        out.append(crate::text::hex2_str(*frame_datum).as_str());
                        out.append(", target: ");
                        out.append(crate::text::hex2_str(*target_datum).as_str());
                        out.append(", displacement: ");
                        out.append(crate::text::hex4_str(*target_displacement).as_str());
                        out.append("\n");
                    },
                }
                proof {
                    assert(expected == Ok::<Seq<char>, OmfError>(
                        headerv + "Module End"@ + (if *main {
                            " (MAIN)"@
                        } else {
                            ""@
                        }) + "\n"@ + (match *start {
                            MAttrStart::NoStart => Seq::<char>::empty(),
                            MAttrStart::Start {
                                end_data,
                                frame_datum,
                                target_datum,
                                target_displacement,
                            } => ("    End data: "@ + crate::text::spec_hex2(end_data)
                                + ", frame: "@ + crate::text::spec_hex2(frame_datum)
                                + ", target: "@ + crate::text::spec_hex2(target_datum)
                                + ", displacement: "@ + crate::text::spec_hex4(
                                target_displacement,
                            ) + "\n"@),
                        }),
                    ));
                    assert(out@ =~= expected->Ok_0);
                }
                Ok(out)
            },
            OmfRecordData::ExtDef { names } => {
                out.append("External Names Definition\n");
                out.append(ext_lines(names, 0).as_str());
                proof {
                    assert(expected == Ok::<Seq<char>, OmfError>(
                        headerv + "External Names Definition\n"@ + spec_ext_lines(
                            Seq::new(names@.len(), |k: int| names@[k]@),
                            0,
                        ),
                    ));
                    assert(out@ =~= expected->Ok_0);
                }
                Ok(out)
            },
            OmfRecordData::PubDef { base_group_index, base_segment_index, base_frame, names } => {
                let ghost tailv = "    Names:\n"@ + spec_pub_lines(
                    Seq::new(names@.len(), |k: int| names@[k]@),
                    0,
                );
                out.append("Public Names Definition\n");
                if *base_group_index == 0 && *base_segment_index == 0 {
                    out.append("    Base Frame: ");
                    out.append(crate::text::hex4_str(*base_frame).as_str());
                    out.append("\n");
                    out.append("    Names:\n");
                    out.append(pub_lines(names, 0).as_str());
                    proof {
                        assert(expected == Ok::<Seq<char>, OmfError>(
                            (headerv + "Public Names Definition\n"@) + "    Base Frame: "@
                                + crate::text::spec_hex4(*base_frame) + "\n"@ + tailv,
                        ));
                        assert(out@ =~= expected->Ok_0);
                    }
                    Ok(out)
                } else {
                    let ghost gtextv: Seq<char>;
                    if *base_group_index == 0 {
                        out.append("    Base Group: None\n");
                        proof {
                            gtextv = "    Base Group: None\n"@;
                        }
                    } else {
                        let group = match self.info.resolve_group(*base_group_index) {
                            Ok(g) => g,
                            Err(e) => {
                                return Err(e);
                            },
                        };
                        let gname = match self.info.resolve_name(group.group_name_index) {
                            Ok(n) => n,
                            Err(e) => {
                                return Err(e);
                            },
                        };
                        out.append("    Base Group: ");
                        out.append(gname.as_str());
                        out.append(" (");
                        out.append(crate::text::dec_str(*base_group_index as usize).as_str());
                        out.append(")\n");
                        proof {
                            gtextv = "    Base Group: "@ + gname@ + " ("@ + crate::text::spec_dec(
                                *base_group_index as nat,
                            ) + ")\n"@;
                        }
                    }
                    let seg = match self.info.resolve_segment(*base_segment_index) {
                        Ok(s) => s,
                        Err(e) => {
                            return Err(e);
                        },
                    };
                    let sname = match self.info.resolve_name(seg.segment_name_index) {
                        Ok(n) => n,
                        Err(e) => {
                            return Err(e);
                        },
                    };
                    out.append("    Base Segment: ");
                    out.append(sname.as_str());
                    out.append(" (");
                    out.append(crate::text::dec_str(*base_segment_index as usize).as_str());
                    out.append(")\n");
                    out.append("    Names:\n");
                    out.append(pub_lines(names, 0).as_str());
                    proof {
                        assert(expected == Ok::<Seq<char>, OmfError>(
                            (headerv + "Public Names Definition\n"@) + gtextv
                                + "    Base Segment: "@ + sname@ + " ("@ + crate::text::spec_dec(
                                *base_segment_index as nat,
                            ) + ")\n"@ + tailv,
                        ));
                        assert(out@ =~= expected->Ok_0);
                    }
                    Ok(out)
                }
            },
            OmfRecordData::LNames { names } => {
                out.append("List of Names\n");
                out.append(lnames_lines(names, 0).as_str());
                proof {
                    assert(expected == Ok::<Seq<char>, OmfError>(
                        headerv + "List of Names\n"@ + spec_lnames_lines(
                            Seq::new(names@.len(), |k: int| names@[k]@),
                            0,
                        ),
                    ));
                    assert(out@ =~= expected->Ok_0);
                }
                Ok(out)
            },
            OmfRecordData::SegDef {
                segment_attributes,
                segment_length,
                segment_name_index,
                class_name_index,
                overlay_name_index,
            } => {
                let sname = match self.info.resolve_name(*segment_name_index) {
                    Ok(n) => n,
                    Err(e) => {
                        return Err(e);
                    },
                };
                let cname = match self.info.resolve_name(*class_name_index) {
                    Ok(n) => n,
                    Err(e) => {
                        return Err(e);
                    },
                };
                let oname = match self.info.resolve_name(*overlay_name_index) {
                    Ok(n) => n,
                    Err(e) => {
                        return Err(e);
                    },
                };
                out.append("Segment Definition - ");
                out.append(sname.as_str());
                out.append(" (");
                out.append(crate::text::dec_str(*segment_name_index as usize).as_str());
                out.append(")\n");
                out.append("    Attributes: ");
                out.append(segment_attributes.alignment.description());
                out.append("; ");
                out.append(segment_attributes.combination.description());
                out.append(" combination");
                if segment_attributes.big {
                    out.append("; BIG");
                } else {
                    out.append("");
                }
                if segment_attributes.bd32bit {
                    out.append("; USE32");
                } else {
                    out.append("");
                }
                out.append("\n");
                out.append("    Segment length: ");
                out.append(crate::text::hex4_str(*segment_length).as_str());
                out.append("\n");
                out.append("    Class name: ");
                out.append(cname.as_str());
                out.append(" (");
                out.append(crate::text::dec_str(*class_name_index as usize).as_str());
                out.append(")\n");
                out.append("    Overlay name: ");
                out.append(oname.as_str());
                out.append(" (");
                out.append(crate::text::dec_str(*overlay_name_index as usize).as_str());
                out.append(")\n");
                proof {
                    assert(expected == Ok::<Seq<char>, OmfError>(
                        headerv + "Segment Definition - "@ + sname@ + " ("@
                            + crate::text::spec_dec(*segment_name_index as nat) + ")\n"@
                            + "    Attributes: "@ + spec_alignment_text(
                            segment_attributes.alignment,
                        ) + "; "@ + spec_combination_text(segment_attributes.combination)
                            + " combination"@ + (if segment_attributes.big {
                            "; BIG"@
                        } else {
                            ""@
                        }) + (if segment_attributes.bd32bit {
                            "; USE32"@
                        } else {
                            ""@
                        }) + "\n"@ + "    Segment length: "@ + crate::text::spec_hex4(
                            *segment_length,
                        ) + "\n"@ + "    Class name: "@ + cname@ + " ("@ + crate::text::spec_dec(
                            *class_name_index as nat,
                        ) + ")\n"@ + "    Overlay name: "@ + oname@ + " ("@
                            + crate::text::spec_dec(*overlay_name_index as nat) + ")\n"@,
                    ));
                    assert(out@ =~= expected->Ok_0);
                }
                Ok(out)
            },
            OmfRecordData::GrpDef { group_name_index, segment_definitions } => {
                let gname = match self.info.resolve_name(*group_name_index) {
                    Ok(n) => n,
                    Err(e) => {
                        return Err(e);
                    },
                };
                let lines = match grp_lines(segment_definitions, 0, &self.info) {
                    Ok(s) => s,
                    Err(e) => {
                        return Err(e);
                    },
                };
                out.append("Group Definition - ");
                out.append(gname.as_str());
                out.append(" (");
                out.append(crate::text::dec_str(*group_name_index as usize).as_str());
                out.append(")\n");
                out.append("    Segments:\n");
                out.append(lines.as_str());
                proof {
                    assert(expected == Ok::<Seq<char>, OmfError>(
                        headerv + "Group Definition - "@ + gname@ + " ("@ + crate::text::spec_dec(
                            *group_name_index as nat,
                        ) + ")\n"@ + "    Segments:\n"@ + lines@,
                    ));
                    assert(out@ =~= expected->Ok_0);
                }
                Ok(out)
            },
            OmfRecordData::LEData { segment_index, enumerated_data_offset, data } => {
                let seg = match self.info.resolve_segment(*segment_index) {
                    Ok(s) => s,
                    Err(e) => {
                        return Err(e);
                    },
                };
                let sname = match self.info.resolve_name(seg.segment_name_index) {
                    Ok(n) => n,
                    Err(e) => {
                        return Err(e);
                    },
                };
                out.append("Logical Enumerated Data - ");
                out.append(sname.as_str());
                out.append(" (");
                out.append(crate::text::dec_str(*segment_index as usize).as_str());
                out.append(") offset ");
                out.append(crate::text::hex4_str(*enumerated_data_offset).as_str());
                out.append("h\n");
                out.append(crate::text::hex_dump(data).as_str());
                out.append("\n");
                proof {
                    assert(expected == Ok::<Seq<char>, OmfError>(
                        headerv + "Logical Enumerated Data - "@ + sname@ + " ("@
                            + crate::text::spec_dec(*segment_index as nat) + ") offset "@
                            + crate::text::spec_hex4(*enumerated_data_offset) + "h\n"@
                            + crate::text::hex_dump_of(data@) + "\n"@,
                    ));
                    assert(out@ =~= expected->Ok_0);
                }
                Ok(out)
            },
            OmfRecordData::Unknown { data } => {
                out.append("Unknown Data\n");
                out.append(crate::text::hex_dump(data).as_str());
                out.append("\n");
                proof {
                    assert(expected == Ok::<Seq<char>, OmfError>(
                        headerv + "Unknown Data\n"@ + crate::text::hex_dump_of(data@) + "\n"@,
                    ));
                    assert(out@ =~= expected->Ok_0);
                }
                Ok(out)
            },
        }
    }
}

} // verus!

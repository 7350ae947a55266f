use vstd::prelude::*;
use crate::code_pair::{binary_value, handle_value, int_value, real_value, short_value, string_value, text_is, CodePair, CodePairValue, CodePairView, DxfError, DxfResult, Handle, ValueView};

verus! {

/// One item of an extension data group.
#[derive(Clone, Debug, PartialEq)]
pub enum ExtensionGroupItem {
    CodePair(CodePair),
}

pub enum ExtensionGroupItemView {
    CodePair(CodePairView),
}

impl View for ExtensionGroupItem {
    type V = ExtensionGroupItemView;

    open spec fn view(&self) -> ExtensionGroupItemView {
        match self {
            ExtensionGroupItem::CodePair(p) => ExtensionGroupItemView::CodePair(p@),
        }
    }
}

/// Records an application attached to an entity, between `{name` and `}`
/// markers.
#[derive(Clone, Debug, PartialEq)]
pub struct ExtensionGroup {
    pub application_name: String,
    pub items: Vec<ExtensionGroupItem>,
}

pub struct ExtensionGroupView {
    pub application_name: Seq<char>,
    pub items: Seq<ExtensionGroupItemView>,
}

impl View for ExtensionGroup {
    type V = ExtensionGroupView;

    open spec fn view(&self) -> ExtensionGroupView {
        ExtensionGroupView {
            application_name: self.application_name@,
            items: self.items@.map_values(|i: ExtensionGroupItem| i@),
        }
    }
}

/// One item of trailing application data.
#[derive(Clone, Debug, PartialEq)]
pub enum XDataItem {
    Str(String),
    Real(u64),
    Integer(i16),
    Long(i32),
    Raw(CodePair),
}

pub enum XDataItemView {
    Str(Seq<char>),
    Real(u64),
    Integer(i16),
    Long(i32),
    Raw(CodePairView),
}

impl View for XDataItem {
    type V = XDataItemView;

    open spec fn view(&self) -> XDataItemView {
        match self {
            XDataItem::Str(s) => XDataItemView::Str(s@),
            XDataItem::Real(v) => XDataItemView::Real(*v),
            XDataItem::Integer(v) => XDataItemView::Integer(*v),
            XDataItem::Long(v) => XDataItemView::Long(*v),
            XDataItem::Raw(p) => XDataItemView::Raw(p@),
        }
    }
}

/// Trailing application data of an entity.
#[derive(Clone, Debug, PartialEq)]
pub struct XData {
    pub application_name: String,
    pub items: Vec<XDataItem>,
}

pub struct XDataView {
    pub application_name: Seq<char>,
    pub items: Seq<XDataItemView>,
}

impl View for XData {
    type V = XDataView;

    open spec fn view(&self) -> XDataView {
        XDataView {
            application_name: self.application_name@,
            items: self.items@.map_values(|i: XDataItem| i@),
        }
    }
}

/// The fields every entity has.
#[derive(Clone, Debug, PartialEq)]
pub struct EntityCommon {
    pub handle: Handle,
    pub owner_handle: Handle,
    pub is_in_paper_space: bool,
    pub layer: String,
    pub preview_image_data: Vec<Vec<u8>>,
    pub extension_data_groups: Vec<ExtensionGroup>,
    pub x_data: Vec<XData>,
}

pub struct EntityCommonView {
    pub handle: Handle,
    pub owner_handle: Handle,
    pub is_in_paper_space: bool,
    pub layer: Seq<char>,
    pub preview_image_data: Seq<Seq<u8>>,
    pub extension_data_groups: Seq<ExtensionGroupView>,
    pub x_data: Seq<XDataView>,
}

impl View for EntityCommon {
    type V = EntityCommonView;

    open spec fn view(&self) -> EntityCommonView {
        EntityCommonView {
            handle: self.handle,
            owner_handle: self.owner_handle,
            is_in_paper_space: self.is_in_paper_space,
            layer: self.layer@,
            preview_image_data: self.preview_image_data@.map_values(|b: Vec<u8>| b@),
            extension_data_groups: self.extension_data_groups@.map_values(|g: ExtensionGroup| g@),
            x_data: self.x_data@.map_values(|x: XData| x@),
        }
    }
}

/// The name of the layer an entity is on unless it says otherwise.
pub open spec fn default_layer() -> Seq<char> {
    seq!['0']
}

impl EntityCommon {
    pub open spec fn default_view() -> EntityCommonView {
        EntityCommonView {
            handle: Handle(0),
            owner_handle: Handle(0),
            is_in_paper_space: false,
            layer: default_layer(),
            preview_image_data: Seq::empty(),
            extension_data_groups: Seq::empty(),
            x_data: Seq::empty(),
        }
    }

    /// Ensures all values are valid: an empty layer name becomes the
    /// default layer.
    pub fn normalize(&mut self)
        ensures
            final(self)@ == (if old(self)@.layer.len() == 0 {
                EntityCommonView { layer: default_layer(), ..old(self)@ }
            } else {
                old(self)@
            }),
    {
        if self.layer.as_str().unicode_len() == 0 {
            self.layer = "0".to_owned();
            proof {
                reveal_strlit("0");
            }
            assert(self@.layer =~= default_layer());
            assert(self@.preview_image_data =~= old(self)@.preview_image_data);
            assert(self@.extension_data_groups =~= old(self)@.extension_data_groups);
            assert(self@.x_data =~= old(self)@.x_data);
        }
    }
}

impl Default for EntityCommon {
    fn default() -> (r: EntityCommon)
        ensures
            r@ == EntityCommon::default_view(),
    {
        let r = EntityCommon {
            handle: Handle(0),
            owner_handle: Handle(0),
            is_in_paper_space: false,
            layer: "0".to_owned(),
            preview_image_data: Vec::new(),
            extension_data_groups: Vec::new(),
            x_data: Vec::new(),
        };
        proof {
            reveal_strlit("0");
        }
        assert(r@.layer =~= default_layer());
        assert(r@.preview_image_data =~= Seq::empty());
        assert(r@.extension_data_groups =~= Seq::empty());
        assert(r@.x_data =~= Seq::empty());
        r
    }
}

/// Where the common-field reader stands between records.
#[derive(Clone, Copy, Debug, PartialEq, Eq, Structural)]
pub enum CommonMode {
    /// Records are entity fields.
    Normal,
    /// Records belong to the last extension data group until it closes.
    InGroup,
    /// Records with codes of 1000 and above belong to the last XData.
    InXData,
}

/// Whether the common-field reader takes a record before the entity's own
/// fields are offered it: inside an open extension group, or an item of
/// the current XData.
pub open spec fn common_first(mode: CommonMode, code: u16) -> bool {
    mode == CommonMode::InGroup || (mode == CommonMode::InXData && code >= 1000 && code != 1001)
}

/// The item of trailing application data a record stands for.
pub open spec fn xdata_item(p: CodePairView) -> DxfResult<XDataItemView> {
    if p.code == 1000 {
        match string_value(p) {
            Ok(s) => Ok(XDataItemView::Str(s)),
            Err(e) => Err(e),
        }
    } else if p.code == 1040 {
        match real_value(p) {
            Ok(v) => Ok(XDataItemView::Real(v)),
            Err(e) => Err(e),
        }
    } else if p.code == 1070 {
        match short_value(p) {
            Ok(v) => Ok(XDataItemView::Integer(v)),
            Err(e) => Err(e),
        }
    } else if p.code == 1071 {
        match int_value(p) {
            Ok(v) => Ok(XDataItemView::Long(v)),
            Err(e) => Err(e),
        }
    } else {
        Ok(XDataItemView::Raw(p))
    }
}

/// Whether a string opens an extension group: `{` followed by the
/// application name.
pub open spec fn opens_group(s: Seq<char>) -> bool {
    s.len() > 0 && s[0] == '{'
}

pub open spec fn push_group_item(c: EntityCommonView, p: CodePairView) -> EntityCommonView {
    let n = c.extension_data_groups.len();
    let g = c.extension_data_groups[n - 1];
    EntityCommonView {
        extension_data_groups: c.extension_data_groups.update(
            n - 1,
            ExtensionGroupView { items: g.items.push(ExtensionGroupItemView::CodePair(p)), ..g },
        ),
        ..c
    }
}

pub open spec fn push_xdata_item(c: EntityCommonView, i: XDataItemView) -> EntityCommonView {
    let n = c.x_data.len();
    let x = c.x_data[n - 1];
    EntityCommonView { x_data: c.x_data.update(n - 1, XDataView { items: x.items.push(i), ..x }), ..c }
}

/// What one record does to the common fields and the reader's mode.
/// Codes the common fields do not know are ignored.
pub open spec fn common_step(c: EntityCommonView, mode: CommonMode, p: CodePairView) -> DxfResult<
    (EntityCommonView, CommonMode),
> {
    if mode == CommonMode::InGroup && c.extension_data_groups.len() > 0 {
        if p.code == 102 && p.value == ValueView::Str(seq!['}']) {
            Ok((c, CommonMode::Normal))
        } else {
            Ok((push_group_item(c, p), CommonMode::InGroup))
        }
    } else if mode == CommonMode::InXData && c.x_data.len() > 0 && p.code >= 1000 && p.code != 1001 {
        match xdata_item(p) {
            Ok(i) => Ok((push_xdata_item(c, i), CommonMode::InXData)),
            Err(e) => Err(e),
        }
    } else if p.code == 5 {
        match handle_value(p) {
            Ok(h) => Ok((EntityCommonView { handle: h, ..c }, CommonMode::Normal)),
            Err(e) => Err(e),
        }
    } else if p.code == 330 {
        match handle_value(p) {
            Ok(h) => Ok((EntityCommonView { owner_handle: h, ..c }, CommonMode::Normal)),
            Err(e) => Err(e),
        }
    } else if p.code == 67 {
        match short_value(p) {
            Ok(v) => Ok((EntityCommonView { is_in_paper_space: v != 0, ..c }, CommonMode::Normal)),
            Err(e) => Err(e),
        }
    } else if p.code == 8 {
        match string_value(p) {
            Ok(s) => Ok((EntityCommonView { layer: s, ..c }, CommonMode::Normal)),
            Err(e) => Err(e),
        }
    } else if p.code == 310 {
        match binary_value(p) {
            Ok(b) => Ok(
                (
                    EntityCommonView { preview_image_data: c.preview_image_data.push(b), ..c },
                    CommonMode::Normal,
                ),
            ),
            Err(e) => Err(e),
        }
    } else if p.code == 102 {
        match string_value(p) {
            Ok(s) => if opens_group(s) {
                Ok(
                    (
                        EntityCommonView {
                            extension_data_groups: c.extension_data_groups.push(
                                ExtensionGroupView {
                                    application_name: s.subrange(1, s.len() as int),
                                    items: Seq::empty(),
                                },
                            ),
                            ..c
                        },
                        CommonMode::InGroup,
                    ),
                )
            } else {
                Ok((c, CommonMode::Normal))
            },
            Err(e) => Err(e),
        }
    } else if p.code == 1001 {
        match string_value(p) {
            Ok(s) => Ok(
                (
                    EntityCommonView {
                        x_data: c.x_data.push(XDataView { application_name: s, items: Seq::empty() }),
                        ..c
                    },
                    CommonMode::InXData,
                ),
            ),
            Err(e) => Err(e),
        }
    } else {
        Ok((c, CommonMode::Normal))
    }
}

fn read_xdata_item(p: &CodePair) -> (r: DxfResult<XDataItem>)
    ensures
        match xdata_item(p@) {
            Ok(i) => r matches Ok(x) && x@ == i,
            Err(e) => r == Err::<XDataItem, DxfError>(e),
        },
{
    if p.code == 1000 {
        Ok(XDataItem::Str(p.assert_string()?))
    } else if p.code == 1040 {
        Ok(XDataItem::Real(p.assert_real()?))
    } else if p.code == 1070 {
        Ok(XDataItem::Integer(p.assert_i16()?))
    } else if p.code == 1071 {
        Ok(XDataItem::Long(p.assert_i32()?))
    } else {
        Ok(XDataItem::Raw(p.copy()))
    }
}

impl EntityCommon {
    /// Applies one record to the common fields, given and returning the
    /// reader's mode.
    pub fn apply_individual_pair(&mut self, mode: CommonMode, p: &CodePair) -> (r: DxfResult<
        CommonMode,
    >)
        ensures
            match common_step(old(self)@, mode, p@) {
                Ok((c, m)) => r == Ok::<CommonMode, DxfError>(m) && final(self)@ == c,
                Err(e) => r == Err::<CommonMode, DxfError>(e),
            },
    {
        let ng = self.extension_data_groups.len();
        let nx = self.x_data.len();
        if mode == CommonMode::InGroup && ng > 0 {
            let closes = p.code == 102 && match &p.value {
                CodePairValue::Str(s) => text_is(s, "}"),
                _ => false,
            };
            proof {
                reveal_strlit("}");
                assert("}"@ =~= seq!['}']);
            }
            if closes {
                return Ok(CommonMode::Normal);
            }
            let ghost before = self@;
            let item = ExtensionGroupItem::CodePair(p.copy());
            let ghost old_groups = self.extension_data_groups@;
            let mut g = self.extension_data_groups.pop().unwrap();
            let ghost old_g = g;
            g.items.push(item);
            self.extension_data_groups.push(g);
            proof {
                assert(g@.items =~= old_g@.items.push(item@));
                assert(self.extension_data_groups@ =~= old_groups.update(ng - 1, g));
                assert(old_groups[ng - 1] == old_g);
                assert(self@.extension_data_groups[ng - 1].items =~= before.extension_data_groups[ng
                    - 1].items.push(ExtensionGroupItemView::CodePair(p@)));
                assert(self@.extension_data_groups =~= push_group_item(before, p@).extension_data_groups);
                assert(self@.preview_image_data =~= before.preview_image_data);
                assert(self@.x_data =~= before.x_data);
            }
            return Ok(CommonMode::InGroup);
        }
        if mode == CommonMode::InXData && nx > 0 && p.code >= 1000 && p.code != 1001 {
            let item = read_xdata_item(p)?;
            let ghost before = self@;
            let ghost old_xs = self.x_data@;
            let mut x = self.x_data.pop().unwrap();
            let ghost old_x = x;
            x.items.push(item);
            self.x_data.push(x);
            proof {
                assert(x@.items =~= old_x@.items.push(item@));
                assert(self.x_data@ =~= old_xs.update(nx - 1, x));
                assert(old_xs[nx - 1] == old_x);
                assert(self@.x_data[nx - 1].items =~= before.x_data[nx - 1].items.push(item@));
                assert(self@.x_data =~= push_xdata_item(before, item@).x_data);
                assert(self@.preview_image_data =~= before.preview_image_data);
                assert(self@.extension_data_groups =~= before.extension_data_groups);
            }
            return Ok(CommonMode::InXData);
        }
        let ghost before = self@;
        if p.code == 5 {
            self.handle = p.as_handle()?;
        } else if p.code == 330 {
            self.owner_handle = p.as_handle()?;
        } else if p.code == 67 {
            self.is_in_paper_space = p.assert_i16()? != 0;
        } else if p.code == 8 {
            self.layer = p.assert_string()?;
        } else if p.code == 310 {
            let b = p.assert_binary()?;
            self.preview_image_data.push(b);
            proof {
                assert(self@.preview_image_data =~= before.preview_image_data.push(b@));
            }
        } else if p.code == 102 {
            let s = p.assert_string()?;
            let st = s.as_str();
            let n = st.unicode_len();
            if n > 0 && st.get_char(0) == '{' {
                let name = st.substring_char(1, n).to_owned();
                let g = ExtensionGroup { application_name: name, items: Vec::new() };
                assert(g@.items =~= Seq::empty());
                self.extension_data_groups.push(g);
                proof {
                    assert(self@.extension_data_groups =~= before.extension_data_groups.push(g@));
                }
                return Ok(CommonMode::InGroup);
            }
        } else if p.code == 1001 {
            let s = p.assert_string()?;
            let x = XData { application_name: s, items: Vec::new() };
            self.x_data.push(x);
            proof {
                assert(x@.items =~= Seq::empty());
                assert(self@.x_data =~= before.x_data.push(x@));
            }
            return Ok(CommonMode::InXData);
        }
        Ok(CommonMode::Normal)
    }
}

} // verus!

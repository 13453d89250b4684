//! Attribute fields of a layer, their storage and their pop-ups.

use vstd::prelude::*;

verus! {

/// A JSON value of `serde_json`, held as it came and never looked into.
#[verifier::external_type_specification]
#[verifier::external_body]
pub struct ExJsonValue(serde_json::Value);

/// Encoding of time values where none is named.
pub fn default_time_encoding() -> (s: String)
    ensures
        s@ == "ECMA_ISO8601"@,
{
    "ECMA_ISO8601".to_owned()
}

#[derive(Debug, Clone)]
pub struct DomainCodedValue {
    pub name: String,
    pub code: String,
}

impl DomainCodedValue {
    /// Every field has the value that a record starts from.
    pub open spec fn is_default(&self) -> bool {
        &&& self.name@ == Seq::<char>::empty()
        &&& self.code@ == Seq::<char>::empty()
    }
}

impl Default for DomainCodedValue {
    fn default() -> (r: Self)
        ensures
            r.is_default(),
    {
        Self {
            name: String::new(),
            code: String::new(),
        }
    }
}

#[derive(Debug, Clone)]
pub struct Domain {
    pub domain_type: String,
    pub name: String,
    pub coded_values: Option<Vec<DomainCodedValue>>,
    pub description: String,
    /// Lower and upper bound, as bit patterns of single-precision numbers.
    pub range: Option<[u32; 2]>,
    pub field_type: String,
    pub merge_policy: String,
    pub split_policy: String,
}

impl Domain {
    /// Every field has the value that a record starts from.
    pub open spec fn is_default(&self) -> bool {
        &&& self.domain_type@ == Seq::<char>::empty()
        &&& self.name@ == Seq::<char>::empty()
        &&& self.coded_values is None
        &&& self.description@ == Seq::<char>::empty()
        &&& self.range is None
        &&& self.field_type@ == Seq::<char>::empty()
        &&& self.merge_policy@ == Seq::<char>::empty()
        &&& self.split_policy@ == Seq::<char>::empty()
    }
}

impl Default for Domain {
    fn default() -> (r: Self)
        ensures
            r.is_default(),
    {
        Self {
            domain_type: String::new(),
            name: String::new(),
            coded_values: None,
            description: String::new(),
            range: None,
            field_type: String::new(),
            merge_policy: String::new(),
            split_policy: String::new(),
        }
    }
}

#[derive(Debug, Clone)]
pub struct Field {
    pub name: String,
    pub field_type: String,
    pub alias: String,
    pub domain: Option<Domain>,
}

impl Field {
    /// Every field has the value that a record starts from.
    pub open spec fn is_default(&self) -> bool {
        &&& self.name@ == Seq::<char>::empty()
        &&& self.field_type@ == Seq::<char>::empty()
        &&& self.alias@ == Seq::<char>::empty()
        &&& self.domain is None
    }
}

impl Default for Field {
    fn default() -> (r: Self)
        ensures
            r.is_default(),
    {
        Self {
            name: String::new(),
            field_type: String::new(),
            alias: String::new(),
            domain: None,
        }
    }
}

#[derive(Debug, Clone)]
pub struct FieldInfo {
    pub field_name: String,
    pub visible: Option<bool>,
    pub is_editable: Option<bool>,
    pub label: String,
}

impl FieldInfo {
    /// Every field has the value that a record starts from.
    pub open spec fn is_default(&self) -> bool {
        &&& self.field_name@ == Seq::<char>::empty()
        &&& self.visible is None
        &&& self.is_editable is None
        &&& self.label@ == Seq::<char>::empty()
    }
}

impl Default for FieldInfo {
    fn default() -> (r: Self)
        ensures
            r.is_default(),
    {
        Self {
            field_name: String::new(),
            visible: None,
            is_editable: None,
            label: String::new(),
        }
    }
}

#[derive(Debug, Clone)]
pub struct PopupElement {
    pub text: String,
    pub popup_element_type: String,
    pub field_infos: Option<Vec<FieldInfo>>,
}

impl PopupElement {
    /// Every field has the value that a record starts from.
    pub open spec fn is_default(&self) -> bool {
        &&& self.text@ == Seq::<char>::empty()
        &&& self.popup_element_type@ == Seq::<char>::empty()
        &&& self.field_infos is None
    }
}

impl Default for PopupElement {
    fn default() -> (r: Self)
        ensures
            r.is_default(),
    {
        Self {
            text: String::new(),
            popup_element_type: String::new(),
            field_infos: None,
        }
    }
}

#[derive(Debug, Clone)]
pub struct PopUpInfo {
    pub title: String,
    pub media_infos: Option<Vec<Option<serde_json::Value>>>,
    pub description: String,
    pub field_infos: Option<Vec<FieldInfo>>,
    pub popup_elements: Option<Vec<PopupElement>>,
    pub expression_infos: Option<Vec<Option<serde_json::Value>>>,
}

impl PopUpInfo {
    /// Every field has the value that a record starts from.
    pub open spec fn is_default(&self) -> bool {
        &&& self.title@ == Seq::<char>::empty()
        &&& self.media_infos is None
        &&& self.description@ == Seq::<char>::empty()
        &&& self.field_infos is None
        &&& self.popup_elements is None
        &&& self.expression_infos is None
    }
}

impl Default for PopUpInfo {
    fn default() -> (r: Self)
        ensures
            r.is_default(),
    {
        Self {
            title: String::new(),
            media_infos: None,
            description: String::new(),
            field_infos: None,
            popup_elements: None,
            expression_infos: None,
        }
    }
}

#[derive(Debug, Clone)]
pub struct StatisticsInfo {
    pub key: String,
    pub name: String,
    pub href: String,
}

impl StatisticsInfo {
    /// Every field has the value that a record starts from.
    pub open spec fn is_default(&self) -> bool {
        &&& self.key@ == Seq::<char>::empty()
        &&& self.name@ == Seq::<char>::empty()
        &&& self.href@ == Seq::<char>::empty()
    }
}

impl Default for StatisticsInfo {
    fn default() -> (r: Self)
        ensures
            r.is_default(),
    {
        Self {
            key: String::new(),
            name: String::new(),
            href: String::new(),
        }
    }
}

#[derive(Debug, Clone)]
pub struct HeaderValue {
    pub value_type: String,
    pub property: String,
}

impl HeaderValue {
    /// Every field has the value that a record starts from.
    pub open spec fn is_default(&self) -> bool {
        &&& self.value_type@ == Seq::<char>::empty()
        &&& self.property@ == Seq::<char>::empty()
    }
}

impl Default for HeaderValue {
    fn default() -> (r: Self)
        ensures
            r.is_default(),
    {
        Self {
            value_type: String::new(),
            property: String::new(),
        }
    }
}

/// How the values of one attribute are stored.
#[derive(Debug, Clone)]
pub struct AttributeValue {
    pub value_type: String,
    pub encoding: String,
    pub time_encoding: String,
    /// Bit pattern of a single-precision number.
    pub values_per_element: Option<u32>,
}

impl AttributeValue {
    /// Every field has the value that a record starts from.
    pub open spec fn is_default(&self) -> bool {
        &&& self.value_type@ == Seq::<char>::empty()
        &&& self.encoding@ == Seq::<char>::empty()
        &&& self.time_encoding@ == "ECMA_ISO8601"@
        &&& self.values_per_element is None
    }
}

impl Default for AttributeValue {
    fn default() -> (r: Self)
        ensures
            r.is_default(),
    {
        Self {
            value_type: String::new(),
            encoding: String::new(),
            time_encoding: default_time_encoding(),
            values_per_element: None,
        }
    }
}

#[derive(Debug, Clone)]
pub struct AttributeStorageInfo {
    pub key: usize,
    pub name: String,
    pub header: Vec<HeaderValue>,
    pub ordering: Option<Vec<String>>,
    pub attribute_values: Option<AttributeValue>,
    pub attribute_byte_counts: Option<AttributeValue>,
    pub object_ids: Option<AttributeValue>,
}

impl AttributeStorageInfo {
    /// Every field has the value that a record starts from.
    pub open spec fn is_default(&self) -> bool {
        &&& self.key == 0
        &&& self.name@ == Seq::<char>::empty()
        &&& self.header@.len() == 0
        &&& self.ordering is None
        &&& self.attribute_values is None
        &&& self.attribute_byte_counts is None
        &&& self.object_ids is None
    }
}

impl Default for AttributeStorageInfo {
    fn default() -> (r: Self)
        ensures
            r.is_default(),
    {
        Self {
            key: 0,
            name: String::new(),
            header: Vec::new(),
            ordering: None,
            attribute_values: None,
            attribute_byte_counts: None,
            object_ids: None,
        }
    }
}

} // verus!

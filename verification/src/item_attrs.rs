//! The rules of the item declaration: the settings an item and its fields
//! carry, their validation, and the choice of the extraction rule for each
//! field from its type and settings.

use vstd::prelude::*;

use crate::error::concat_str;
use crate::text::chars_of;

verus! {

/// Settings of an item: the CSS selector of the elements that each hold
/// one item.
#[derive(Debug, Clone)]
pub struct ContainerAttrs {
    /// CSS selector of the item's elements.
    pub selector: Option<String>,
}

/// Settings of a field.
#[derive(Debug, Clone)]
pub struct FieldAttrs {
    /// CSS selector of the field's element(s).
    pub selector: Option<String>,
    /// HTML attribute to read instead of the text content.
    pub attr: Option<String>,
    /// Use the type's default value when extraction fails.
    pub default: bool,
    /// Regular expression applied to the text read: its first capture
    /// group (or its whole match) is kept.
    pub regex: Option<String>,
    /// Path of a `fn(String) -> String` applied to the text read, after the
    /// regular expression.
    pub transform: Option<String>,
}

/// What kind of declaration an item is derived for.
#[derive(Debug, Clone, Copy, PartialEq, Eq, Structural)]
pub enum DataKind {
    Struct,
    Enum,
    Union,
}

/// A type as the rules see it: a path type's last segment, or another kind
/// of type (a reference, a tuple, ...).
#[derive(Debug, Clone)]
pub enum TypeName {
    Path(String),
    Other,
}

/// A field's type: its name and, for a generic type, the name of its first
/// type argument.
#[derive(Debug, Clone)]
pub struct FieldType {
    pub outer: TypeName,
    pub inner: Option<TypeName>,
}

/// Whether two strings are equal.
pub fn str_equal(a: &str, b: &str) -> (r: bool)
    ensures
        r == (a@ == b@),
{
    let x = chars_of(a);
    let y = chars_of(b);
    if x.len() != y.len() {
        return false;
    }
    let mut i: usize = 0;
    while i < x.len()
        invariant
            x@ == a@,
            y@ == b@,
            x@.len() == y@.len(),
            i <= x@.len(),
            forall|k: int| 0 <= k < i ==> x@[k] == y@[k],
        decreases x@.len() - i,
    {
        if x[i] != y[i] {
            return false;
        }
        i = i + 1;
    }
    assert(x@ =~= y@);
    true
}

/// Whether `t` is named `name`.
pub open spec fn is_named(t: TypeName, name: Seq<char>) -> bool {
    t matches TypeName::Path(id) && id@ == name
}

fn named(t: &TypeName, name: &str) -> (r: bool)
    ensures
        r == is_named(*t, name@),
{
    match t {
        TypeName::Path(id) => str_equal(id.as_str(), name),
        TypeName::Other => false,
    }
}

/// Whether the field type is `Option<T>`.
pub fn is_option(ty: &FieldType) -> (r: bool)
    ensures
        r == is_named(ty.outer, "Option"@),
{
    named(&ty.outer, "Option")
}

/// Whether the field type is `Vec<T>`.
pub fn is_vec(ty: &FieldType) -> (r: bool)
    ensures
        r == is_named(ty.outer, "Vec"@),
{
    named(&ty.outer, "Vec")
}

/// The first type argument of a path type, if any.
pub open spec fn inner_type(ty: FieldType) -> Option<TypeName> {
    match ty.outer {
        TypeName::Path(_) => ty.inner,
        TypeName::Other => None,
    }
}

/// The inner type of `Option<T>` or `Vec<T>` (of any generic path type).
pub fn extract_inner_type(ty: &FieldType) -> (r: Option<&TypeName>)
    ensures
        match r {
            Some(t) => inner_type(*ty) == Some(*t),
            None => inner_type(*ty) is None,
        },
{
    match &ty.outer {
        TypeName::Path(_) => match &ty.inner {
            Some(t) => Some(t),
            None => None,
        },
        TypeName::Other => None,
    }
}

/// The names of the types that convert from text and are not items.
pub open spec fn is_standard_name(id: Seq<char>) -> bool {
    ||| id == "String"@
    ||| id == "str"@
    ||| id == "i8"@
    ||| id == "i16"@
    ||| id == "i32"@
    ||| id == "i64"@
    ||| id == "i128"@
    ||| id == "isize"@
    ||| id == "u8"@
    ||| id == "u16"@
    ||| id == "u32"@
    ||| id == "u64"@
    ||| id == "u128"@
    ||| id == "usize"@
    ||| id == "f32"@
    ||| id == "f64"@
    ||| id == "bool"@
    ||| id == "Option"@
    ||| id == "Vec"@
}

/// Whether a type is taken for an item (rather than a value parsed from
/// text): any path type whose name is not one of the standard names.
pub open spec fn likely_item(t: TypeName) -> bool {
    t matches TypeName::Path(id) && !is_standard_name(id@)
}

/// Whether a type is taken for an item: any path type whose name is not one
/// of the standard names.
pub fn is_likely_item_type(t: &TypeName) -> (r: bool)
    ensures
        r == likely_item(*t),
{
    match t {
        TypeName::Path(id) => {
            let s = id.as_str();
            !(str_equal(s, "String") || str_equal(s, "str") || str_equal(s, "i8") || str_equal(
                s,
                "i16",
            ) || str_equal(s, "i32") || str_equal(s, "i64") || str_equal(s, "i128") || str_equal(
                s,
                "isize",
            ) || str_equal(s, "u8") || str_equal(s, "u16") || str_equal(s, "u32") || str_equal(
                s,
                "u64",
            ) || str_equal(s, "u128") || str_equal(s, "usize") || str_equal(s, "f32")
                || str_equal(s, "f64") || str_equal(s, "bool") || str_equal(s, "Option")
                || str_equal(s, "Vec"))
        },
        TypeName::Other => false,
    }
}

/// The type whose kind decides the rule: the inner type of `Option<T>` or
/// `Vec<T>`, else the type itself.
pub open spec fn item_type(ty: FieldType) -> TypeName {
    if (is_named(ty.outer, "Option"@) || is_named(ty.outer, "Vec"@)) && inner_type(ty) is Some {
        inner_type(ty)->0
    } else {
        ty.outer
    }
}

/// The type whose kind decides the rule: the inner type of `Option<T>` or
/// `Vec<T>`, else the type itself.
pub fn get_item_type(ty: &FieldType) -> (r: &TypeName)
    ensures
        *r == item_type(*ty),
{
    if is_option(ty) || is_vec(ty) {
        match extract_inner_type(ty) {
            Some(inner) => return inner,
            None => {},
        }
    }
    &ty.outer
}

/// How a field's value is extracted.
#[derive(Debug, Clone, Copy, PartialEq, Eq, Structural)]
pub enum FieldExtraction {
    /// `Vec` of items: every matching element, each extracted as an item.
    ItemList,
    /// `Vec` read from an attribute of every matching element.
    AttrList,
    /// `Vec` read from the text of every matching element.
    TextList,
    /// `Option` of an item.
    OptionalItem,
    /// An item, required.
    RequiredItem,
    /// `Option` read from an attribute.
    OptionalAttr,
    /// Read from an attribute, the type's default where that fails.
    DefaultAttr,
    /// Read from an attribute, required.
    RequiredAttr,
    /// `Option` read from text.
    OptionalText,
    /// Read from text, the type's default where that fails.
    DefaultText,
    /// Read from text, required.
    RequiredText,
}

/// The extraction rule of a field: lists first, then items, then attribute
/// fields, then text fields; within those, optional before default before
/// required.
pub open spec fn field_rule(ty: FieldType, attrs: FieldAttrs) -> FieldExtraction {
    let optional = is_named(ty.outer, "Option"@);
    let list = is_named(ty.outer, "Vec"@);
    let nested = likely_item(item_type(ty));
    if list && nested {
        FieldExtraction::ItemList
    } else if list {
        if attrs.attr is Some {
            FieldExtraction::AttrList
        } else {
            FieldExtraction::TextList
        }
    } else if nested && optional {
        FieldExtraction::OptionalItem
    } else if nested {
        FieldExtraction::RequiredItem
    } else if attrs.attr is Some {
        if optional {
            FieldExtraction::OptionalAttr
        } else if attrs.default {
            FieldExtraction::DefaultAttr
        } else {
            FieldExtraction::RequiredAttr
        }
    } else {
        if optional {
            FieldExtraction::OptionalText
        } else if attrs.default {
            FieldExtraction::DefaultText
        } else {
            FieldExtraction::RequiredText
        }
    }
}

/// Chooses the extraction rule of a field from its type and settings.
pub fn generate_field_extraction(ty: &FieldType, attrs: &FieldAttrs) -> (r: FieldExtraction)
    ensures
        r == field_rule(*ty, *attrs),
{
    let optional = is_option(ty);
    let list = is_vec(ty);
    let nested = is_likely_item_type(get_item_type(ty));
    if list && nested {
        FieldExtraction::ItemList
    } else if list {
        if attrs.attr.is_some() {
            FieldExtraction::AttrList
        } else {
            FieldExtraction::TextList
        }
    } else if nested && optional {
        FieldExtraction::OptionalItem
    } else if nested {
        FieldExtraction::RequiredItem
    } else if attrs.attr.is_some() {
        if optional {
            FieldExtraction::OptionalAttr
        } else if attrs.default {
            FieldExtraction::DefaultAttr
        } else {
            FieldExtraction::RequiredAttr
        }
    } else {
        if optional {
            FieldExtraction::OptionalText
        } else if attrs.default {
            FieldExtraction::DefaultText
        } else {
            FieldExtraction::RequiredText
        }
    }
}

/// The types that convert from text are never taken for items: a field of
/// type `String`, `str`, an integer type, `f32`, `f64` or `bool` (or an
/// `Option` or `Vec` of one) is read from text or an attribute, whatever its
/// settings.
pub proof fn text_types_are_not_items(ty: FieldType, attrs: FieldAttrs)
    requires
        item_type(ty) matches TypeName::Path(n) && {
            let id = n@;
            ||| id == "String"@
            ||| id == "str"@
            ||| id == "i8"@
            ||| id == "i16"@
            ||| id == "i32"@
            ||| id == "i64"@
            ||| id == "i128"@
            ||| id == "isize"@
            ||| id == "u8"@
            ||| id == "u16"@
            ||| id == "u32"@
            ||| id == "u64"@
            ||| id == "u128"@
            ||| id == "usize"@
            ||| id == "f32"@
            ||| id == "f64"@
            ||| id == "bool"@
        },
    ensures
        field_rule(ty, attrs) != FieldExtraction::ItemList,
        field_rule(ty, attrs) != FieldExtraction::OptionalItem,
        field_rule(ty, attrs) != FieldExtraction::RequiredItem,
{
}

/// The rules of the declaration: an `Option` field always gets an optional
/// rule (it never reports a missing field), a `Vec` field always a list rule,
/// a rule reads an attribute exactly when the field names one (items aside),
/// and a default is used only where the field asks for it.
pub proof fn field_rules_follow_declaration(ty: FieldType, attrs: FieldAttrs)
    ensures
        is_named(ty.outer, "Option"@) ==> (field_rule(ty, attrs) == FieldExtraction::OptionalItem
            || field_rule(ty, attrs) == FieldExtraction::OptionalAttr || field_rule(ty, attrs)
            == FieldExtraction::OptionalText),
        is_named(ty.outer, "Vec"@) ==> (field_rule(ty, attrs) == FieldExtraction::ItemList
            || field_rule(ty, attrs) == FieldExtraction::AttrList || field_rule(ty, attrs)
            == FieldExtraction::TextList),
        !likely_item(item_type(ty)) ==> ((field_rule(ty, attrs) == FieldExtraction::RequiredAttr
            || field_rule(ty, attrs) == FieldExtraction::OptionalAttr || field_rule(ty, attrs)
            == FieldExtraction::DefaultAttr || field_rule(ty, attrs) == FieldExtraction::AttrList)
            <==> attrs.attr is Some),
        (field_rule(ty, attrs) == FieldExtraction::DefaultText || field_rule(ty, attrs)
            == FieldExtraction::DefaultAttr) ==> attrs.default,
{
    reveal_strlit("Option");
    reveal_strlit("Vec");
    assert("Option"@ != "Vec"@) by {
        assert("Option"@.len() != "Vec"@.len());
    }
}

/// Items are derived for structs only.
pub fn validate_struct_only(kind: DataKind) -> (r: Result<(), String>)
    ensures
        match kind {
            DataKind::Struct => r is Ok,
            DataKind::Enum => r matches Err(m) && m@ == "Item can only be derived for structs, not enums"@,
            DataKind::Union => r matches Err(m) && m@ == "Item can only be derived for structs, not unions"@,
        },
{
    match kind {
        DataKind::Struct => Ok(()),
        DataKind::Enum => Err("Item can only be derived for structs, not enums".to_owned()),
        DataKind::Union => Err("Item can only be derived for structs, not unions".to_owned()),
    }
}

/// An item needs a selector.
pub fn validate_container_selector(attrs: &ContainerAttrs) -> (r: Result<(), String>)
    ensures
        attrs.selector is Some ==> r is Ok,
        attrs.selector is None ==> (r matches Err(m) && m@
            == "Item derive requires a selector attribute: #[item(selector = \"...\")]"@),
{
    if attrs.selector.is_none() {
        return Err("Item derive requires a selector attribute: #[item(selector = \"...\")]".to_owned());
    }
    Ok(())
}

/// The name a message gives a field: its name, or "unnamed field".
pub open spec fn field_label(name: Option<Seq<char>>) -> Seq<char> {
    match name {
        Some(n) => n,
        None => "unnamed field"@,
    }
}

fn label_of(name: Option<&str>) -> (r: String)
    ensures
        r@ == field_label(
            match name {
                Some(n) => Some(n@),
                None => None,
            },
        ),
{
    match name {
        Some(n) => n.to_owned(),
        None => "unnamed field".to_owned(),
    }
}

/// A field needs a selector.
pub fn validate_field_selector(name: Option<&str>, attrs: &FieldAttrs) -> (r: Result<(), String>)
    ensures
        attrs.selector is Some ==> r is Ok,
        attrs.selector is None ==> (r matches Err(m) && m@ == "Field '"@ + field_label(
            match name {
                Some(n) => Some(n@),
                None => None,
            },
        ) + "' requires a selector attribute: #[field(selector = \"...\")]"@),
{
    if attrs.selector.is_none() {
        let label = label_of(name);
        let mut m = concat_str("Field '", label.as_str());
        m.append("' requires a selector attribute: #[field(selector = \"...\")]");
        return Err(m);
    }
    Ok(())
}

/// A field cannot both read an attribute and have a default.
pub fn validate_no_conflicts(name: Option<&str>, attrs: &FieldAttrs) -> (r: Result<(), String>)
    ensures
        !(attrs.attr is Some && attrs.default) ==> r is Ok,
        attrs.attr is Some && attrs.default ==> (r matches Err(m) && m@ == "Field '"@ + field_label(
            match name {
                Some(n) => Some(n@),
                None => None,
            },
        ) + "' cannot have both 'attr' and 'default' attributes"@),
{
    if attrs.attr.is_some() && attrs.default {
        let label = label_of(name);
        let mut m = concat_str("Field '", label.as_str());
        m.append("' cannot have both 'attr' and 'default' attributes");
        return Err(m);
    }
    Ok(())
}

/// Validates the declaration an item is derived for: a struct, with a
/// selector.
pub fn validate_item(kind: DataKind, attrs: &ContainerAttrs) -> (r: Result<(), String>)
    ensures
        r is Ok <==> (kind == DataKind::Struct && attrs.selector is Some),
{
    match validate_struct_only(kind) {
        Ok(()) => {},
        Err(m) => return Err(m),
    }
    validate_container_selector(attrs)
}

} // verus!

//! Reading the settings of an item and of its fields from their attributes:
//! `#[item(selector = "...")]` on the item, and
//! `#[field(selector = "...", attr = "...", default, regex = "...",
//! transform = "...")]` on a field.
//!
//! An attribute is taken as its tokens read: its path, and, for a list in
//! delimiters, each setting's key and what follows the key. Attributes with
//! another path are left alone. Within a list, the settings are read left to
//! right, a later value replacing an earlier one, and the first error ends
//! the reading.

use vstd::prelude::*;

use crate::error::concat_str;
use crate::fields::opt_view;
use crate::item_attrs::{str_equal, ContainerAttrs, FieldAttrs};

verus! {

/// The key of one setting in an attribute's list, as its tokens begin.
#[derive(Debug, Clone)]
pub enum MetaKey {
    /// A single identifier (a keyword counts).
    Ident(String),
    /// A path that is not a single identifier (`a::b`, `::a`).
    Path,
    /// A literal where a key belongs.
    Literal,
    /// Another token where a key belongs.
    Other,
}

/// What follows a setting's key, up to the next `,` of the list.
#[derive(Debug, Clone)]
pub enum MetaValue {
    /// Nothing: a `,` follows, or the list ends.
    Empty,
    /// `=` and a literal, then a `,` or the end of the list. A string
    /// literal carries its value.
    Lit(Option<String>),
    /// `=` and a literal, then a token other than `,`. A string literal
    /// carries its value.
    LitThen(Option<String>),
    /// `=` and the end of the list.
    EqEnd,
    /// `=` and a token that begins no literal.
    EqOther,
    /// A token other than `=` and `,` (such as a group in parentheses).
    Other,
}

/// One setting of an attribute's list.
#[derive(Debug, Clone)]
pub struct MetaEntry {
    pub key: MetaKey,
    pub value: MetaValue,
}

/// The arguments of an attribute.
#[derive(Debug, Clone)]
pub enum AttrArgs {
    /// No arguments: `#[name]`.
    Bare,
    /// A value: `#[name = ...]`.
    Assigned,
    /// A list of settings in delimiters: `#[name(...)]`.
    List(Vec<MetaEntry>),
}

/// An attribute of the item or of a field.
#[derive(Debug, Clone)]
pub struct AttrInput {
    /// The attribute's path, when it is a single identifier.
    pub name: Option<String>,
    pub args: AttrArgs,
}

/// Whether the key is the identifier `name`.
pub open spec fn key_is(key: MetaKey, name: Seq<char>) -> bool {
    key matches MetaKey::Ident(k) && k@ == name
}

/// Whether the attribute's path is the identifier `name`.
pub open spec fn attr_is(a: AttrInput, name: Seq<char>) -> bool {
    a.name matches Some(n) && n@ == name
}

/// The error for a key that is not one of the known settings: `unknown`
/// for a path, or the complaint about a key that is no path.
pub open spec fn key_error(key: MetaKey, unknown: Seq<char>) -> Seq<char> {
    match key {
        MetaKey::Literal => "unexpected literal in nested attribute, expected ident"@,
        MetaKey::Other => "unexpected token in nested attribute, expected ident"@,
        _ => unknown,
    }
}

/// The value of a setting that takes a string literal, or its error.
pub open spec fn string_setting(value: MetaValue, key: Seq<char>) -> Result<Seq<char>, Seq<char>> {
    match value {
        MetaValue::Lit(Some(s)) => Ok(s@),
        MetaValue::Lit(None) => Err(key + " must be a string literal"@),
        MetaValue::LitThen(None) => Err(key + " must be a string literal"@),
        MetaValue::LitThen(Some(_)) => Err("expected `,`"@),
        MetaValue::EqEnd => Err("unexpected end of input, expected literal"@),
        MetaValue::EqOther => Err("expected literal"@),
        MetaValue::Empty => Err("expected `=`"@),
        MetaValue::Other => Err("expected `=`"@),
    }
}

/// A setting that takes no value accepts only nothing after its key.
pub open spec fn flag_setting(value: MetaValue) -> Result<(), Seq<char>> {
    match value {
        MetaValue::Empty => Ok(()),
        _ => Err("expected `,`"@),
    }
}

/// The errors of an attribute with the right path but no list.
pub open spec fn args_error(args: AttrArgs, name: Seq<char>) -> Seq<char> {
    match args {
        AttrArgs::Assigned => "expected parentheses: #["@ + name + "(...)]"@,
        _ => "expected attribute arguments in parentheses: #["@ + name + "(...)]"@,
    }
}

// ----- the item's settings -----

/// The item's selector after one setting of `#[item(...)]`, or the error.
pub open spec fn item_setting(sel: Option<Seq<char>>, e: MetaEntry) -> Result<Option<Seq<char>>, Seq<char>> {
    if key_is(e.key, "selector"@) {
        match string_setting(e.value, "selector"@) {
            Ok(s) => Ok(Some(s)),
            Err(m) => Err(m),
        }
    } else {
        Err(key_error(e.key, "unknown item attribute"@))
    }
}

/// The item's selector after the settings `entries`, read in order from
/// `sel`, or the first error.
pub open spec fn item_settings(sel: Option<Seq<char>>, entries: Seq<MetaEntry>) -> Result<
    Option<Seq<char>>,
    Seq<char>,
>
    decreases entries.len(),
{
    if entries.len() == 0 {
        Ok(sel)
    } else {
        match item_settings(sel, entries.drop_last()) {
            Ok(s) => item_setting(s, entries.last()),
            Err(m) => Err(m),
        }
    }
}

/// The item's selector after one attribute, or the error.
pub open spec fn item_attr(sel: Option<Seq<char>>, a: AttrInput) -> Result<Option<Seq<char>>, Seq<char>> {
    if !attr_is(a, "item"@) {
        Ok(sel)
    } else {
        match a.args {
            AttrArgs::List(entries) => item_settings(sel, entries@),
            _ => Err(args_error(a.args, "item"@)),
        }
    }
}

/// The item's selector after the attributes `attrs`, or the first error.
pub open spec fn item_attrs(attrs: Seq<AttrInput>) -> Result<Option<Seq<char>>, Seq<char>>
    decreases attrs.len(),
{
    if attrs.len() == 0 {
        Ok(None)
    } else {
        match item_attrs(attrs.drop_last()) {
            Ok(s) => item_attr(s, attrs.last()),
            Err(m) => Err(m),
        }
    }
}

// ----- a field's settings -----

/// A field's selector, attribute name, default flag, regular expression and
/// transform.
pub type FieldSettings = (Option<Seq<char>>, Option<Seq<char>>, bool, Option<Seq<char>>, Option<Seq<char>>);

/// A field's settings after one setting of `#[field(...)]`, or the error.
pub open spec fn field_setting(st: FieldSettings, e: MetaEntry) -> Result<FieldSettings, Seq<char>> {
    if key_is(e.key, "selector"@) {
        match string_setting(e.value, "selector"@) {
            Ok(s) => Ok((Some(s), st.1, st.2, st.3, st.4)),
            Err(m) => Err(m),
        }
    } else if key_is(e.key, "attr"@) {
        match string_setting(e.value, "attr"@) {
            Ok(s) => Ok((st.0, Some(s), st.2, st.3, st.4)),
            Err(m) => Err(m),
        }
    } else if key_is(e.key, "default"@) {
        match flag_setting(e.value) {
            Ok(_) => Ok((st.0, st.1, true, st.3, st.4)),
            Err(m) => Err(m),
        }
    } else if key_is(e.key, "regex"@) {
        match string_setting(e.value, "regex"@) {
            Ok(s) => Ok((st.0, st.1, st.2, Some(s), st.4)),
            Err(m) => Err(m),
        }
    } else if key_is(e.key, "transform"@) {
        match string_setting(e.value, "transform"@) {
            Ok(s) => Ok((st.0, st.1, st.2, st.3, Some(s))),
            Err(m) => Err(m),
        }
    } else {
        Err(key_error(e.key, "unknown field attribute"@))
    }
}

/// A field's settings after `entries`, read in order from `st`, or the
/// first error.
pub open spec fn field_settings(st: FieldSettings, entries: Seq<MetaEntry>) -> Result<FieldSettings, Seq<char>>
    decreases entries.len(),
{
    if entries.len() == 0 {
        Ok(st)
    } else {
        match field_settings(st, entries.drop_last()) {
            Ok(s) => field_setting(s, entries.last()),
            Err(m) => Err(m),
        }
    }
}

/// A field's settings after one attribute, or the error.
pub open spec fn field_attr(st: FieldSettings, a: AttrInput) -> Result<FieldSettings, Seq<char>> {
    if !attr_is(a, "field"@) {
        Ok(st)
    } else {
        match a.args {
            AttrArgs::List(entries) => field_settings(st, entries@),
            _ => Err(args_error(a.args, "field"@)),
        }
    }
}

/// A field's settings after the attributes `attrs`, or the first error.
pub open spec fn field_attrs(attrs: Seq<AttrInput>) -> Result<FieldSettings, Seq<char>>
    decreases attrs.len(),
{
    if attrs.len() == 0 {
        Ok((None, None, false, None, None))
    } else {
        match field_attrs(attrs.drop_last()) {
            Ok(s) => field_attr(s, attrs.last()),
            Err(m) => Err(m),
        }
    }
}

/// The view of a field's settings.
pub open spec fn field_view(f: FieldAttrs) -> FieldSettings {
    (opt_view(f.selector), opt_view(f.attr), f.default, opt_view(f.regex), opt_view(f.transform))
}

// ----- an error ends the reading -----

proof fn lemma_item_settings_err(sel: Option<Seq<char>>, entries: Seq<MetaEntry>, k: int)
    requires
        0 <= k <= entries.len(),
        item_settings(sel, entries.take(k)) is Err,
    ensures
        item_settings(sel, entries) == item_settings(sel, entries.take(k)),
    decreases entries.len(),
{
    if k == entries.len() {
        assert(entries.take(k) == entries);
    } else {
        assert(entries.drop_last().take(k) == entries.take(k));
        lemma_item_settings_err(sel, entries.drop_last(), k);
    }
}

proof fn lemma_item_attrs_err(attrs: Seq<AttrInput>, k: int)
    requires
        0 <= k <= attrs.len(),
        item_attrs(attrs.take(k)) is Err,
    ensures
        item_attrs(attrs) == item_attrs(attrs.take(k)),
    decreases attrs.len(),
{
    if k == attrs.len() {
        assert(attrs.take(k) == attrs);
    } else {
        assert(attrs.drop_last().take(k) == attrs.take(k));
        lemma_item_attrs_err(attrs.drop_last(), k);
    }
}

proof fn lemma_field_settings_err(st: FieldSettings, entries: Seq<MetaEntry>, k: int)
    requires
        0 <= k <= entries.len(),
        field_settings(st, entries.take(k)) is Err,
    ensures
        field_settings(st, entries) == field_settings(st, entries.take(k)),
    decreases entries.len(),
{
    if k == entries.len() {
        assert(entries.take(k) == entries);
    } else {
        assert(entries.drop_last().take(k) == entries.take(k));
        lemma_field_settings_err(st, entries.drop_last(), k);
    }
}

proof fn lemma_field_attrs_err(attrs: Seq<AttrInput>, k: int)
    requires
        0 <= k <= attrs.len(),
        field_attrs(attrs.take(k)) is Err,
    ensures
        field_attrs(attrs) == field_attrs(attrs.take(k)),
    decreases attrs.len(),
{
    if k == attrs.len() {
        assert(attrs.take(k) == attrs);
    } else {
        assert(attrs.drop_last().take(k) == attrs.take(k));
        lemma_field_attrs_err(attrs.drop_last(), k);
    }
}

/// Reads a setting that takes a string literal.
fn read_string_setting(value: &MetaValue, key: &str) -> (r: Result<String, String>)
    ensures
        match string_setting(*value, key@) {
            Ok(s) => r matches Ok(v) && v@ == s,
            Err(m) => r matches Err(e) && e@ == m,
        },
{
    match value {
        MetaValue::Lit(Some(s)) => Ok(s.clone()),
        MetaValue::Lit(None) => Err(concat_str(key, " must be a string literal")),
        MetaValue::LitThen(None) => Err(concat_str(key, " must be a string literal")),
        MetaValue::LitThen(Some(_)) => Err("expected `,`".to_owned()),
        MetaValue::EqEnd => Err("unexpected end of input, expected literal".to_owned()),
        MetaValue::EqOther => Err("expected literal".to_owned()),
        MetaValue::Empty => Err("expected `=`".to_owned()),
        MetaValue::Other => Err("expected `=`".to_owned()),
    }
}

/// Whether the key is the identifier `name`.
fn key_matches(key: &MetaKey, name: &str) -> (r: bool)
    ensures
        r == key_is(*key, name@),
{
    match key {
        MetaKey::Ident(k) => str_equal(k.as_str(), name),
        _ => false,
    }
}

/// Whether the attribute's path is the identifier `name`.
fn attr_matches(a: &AttrInput, name: &str) -> (r: bool)
    ensures
        r == attr_is(*a, name@),
{
    match &a.name {
        Some(n) => str_equal(n.as_str(), name),
        None => false,
    }
}

/// The error for an unknown key.
fn unknown_key(key: &MetaKey, unknown: &str) -> (r: String)
    ensures
        r@ == key_error(*key, unknown@),
{
    match key {
        MetaKey::Literal => "unexpected literal in nested attribute, expected ident".to_owned(),
        MetaKey::Other => "unexpected token in nested attribute, expected ident".to_owned(),
        _ => unknown.to_owned(),
    }
}

/// The error for an attribute with the right path but no list.
fn no_list(args: &AttrArgs, name: &str) -> (r: String)
    requires
        !(args is List),
    ensures
        r@ == args_error(*args, name@),
{
    let mut m = match args {
        AttrArgs::Assigned => "expected parentheses: #[".to_owned(),
        _ => "expected attribute arguments in parentheses: #[".to_owned(),
    };
    m.append(name);
    m.append("(...)]");
    m
}

impl ContainerAttrs {
    /// Reads the item's settings from its attributes.
    pub fn from_attributes(attrs: &Vec<AttrInput>) -> (r: Result<ContainerAttrs, String>)
        ensures
            match item_attrs(attrs@) {
                Ok(sel) => r matches Ok(c) && opt_view(c.selector) == sel,
                Err(m) => r matches Err(e) && e@ == m,
            },
    {
        let mut selector: Option<String> = None;
        let mut i: usize = 0;
        while i < attrs.len()
            invariant
                i <= attrs@.len(),
                item_attrs(attrs@.take(i as int)) == Ok::<Option<Seq<char>>, Seq<char>>(opt_view(selector)),
            decreases attrs@.len() - i,
        {
            assert(attrs@.take(i as int + 1).drop_last() == attrs@.take(i as int));
            let a = &attrs[i];
            if attr_matches(a, "item") {
                match &a.args {
                    AttrArgs::List(entries) => {
                        let ghost start = opt_view(selector);
                        let mut j: usize = 0;
                        while j < entries.len()
                            invariant
                                i < attrs@.len(),
                                attrs@[i as int].args == AttrArgs::List(*entries),
                                attr_is(attrs@[i as int], "item"@),
                                item_attrs(attrs@.take(i as int)) == Ok::<Option<Seq<char>>, Seq<char>>(start),
                                j <= entries@.len(),
                                item_settings(start, entries@.take(j as int)) == Ok::<
                                    Option<Seq<char>>,
                                    Seq<char>,
                                >(opt_view(selector)),
                            decreases entries@.len() - j,
                        {
                            assert(entries@.take(j as int + 1).drop_last() == entries@.take(j as int));
                            let e = &entries[j];
                            if key_matches(&e.key, "selector") {
                                match read_string_setting(&e.value, "selector") {
                                    Ok(s) => {
                                        selector = Some(s);
                                    },
                                    Err(m) => {
                                        proof {
                                            lemma_item_settings_err(start, entries@, j + 1);
                                            assert(attrs@.take(i + 1).drop_last() == attrs@.take(i as int));
                                            lemma_item_attrs_err(attrs@, i + 1);
                                        }
                                        return Err(m);
                                    },
                                }
                            } else {
                                proof {
                                    lemma_item_settings_err(start, entries@, j + 1);
                                    assert(attrs@.take(i + 1).drop_last() == attrs@.take(i as int));
                                    lemma_item_attrs_err(attrs@, i + 1);
                                }
                                return Err(unknown_key(&e.key, "unknown item attribute"));
                            }
                            j = j + 1;
                        }
                        assert(entries@.take(entries@.len() as int) == entries@);
                    },
                    _ => {
                        proof {
                            lemma_item_attrs_err(attrs@, i + 1);
                        }
                        return Err(no_list(&a.args, "item"));
                    },
                }
            }
            i = i + 1;
        }
        assert(attrs@.take(attrs@.len() as int) == attrs@);
        Ok(ContainerAttrs { selector })
    }
}

impl FieldAttrs {
    /// Reads a field's settings from its attributes.
    pub fn from_attributes(attrs: &Vec<AttrInput>) -> (r: Result<FieldAttrs, String>)
        ensures
            match field_attrs(attrs@) {
                Ok(st) => r matches Ok(f) && field_view(f) == st,
                Err(m) => r matches Err(e) && e@ == m,
            },
    {
        let mut f = FieldAttrs { selector: None, attr: None, default: false, regex: None, transform: None };
        let mut i: usize = 0;
        while i < attrs.len()
            invariant
                i <= attrs@.len(),
                field_attrs(attrs@.take(i as int)) == Ok::<FieldSettings, Seq<char>>(field_view(f)),
            decreases attrs@.len() - i,
        {
            assert(attrs@.take(i as int + 1).drop_last() == attrs@.take(i as int));
            let a = &attrs[i];
            if attr_matches(a, "field") {
                match &a.args {
                    AttrArgs::List(entries) => {
                        let ghost start = field_view(f);
                        let mut j: usize = 0;
                        while j < entries.len()
                            invariant
                                i < attrs@.len(),
                                attrs@[i as int].args == AttrArgs::List(*entries),
                                attr_is(attrs@[i as int], "field"@),
                                field_attrs(attrs@.take(i as int)) == Ok::<FieldSettings, Seq<char>>(start),
                                j <= entries@.len(),
                                field_settings(start, entries@.take(j as int)) == Ok::<FieldSettings, Seq<char>>(
                                    field_view(f),
                                ),
                            decreases entries@.len() - j,
                        {
                            assert(entries@.take(j as int + 1).drop_last() == entries@.take(j as int));
                            let e = &entries[j];
                            let step: Result<(), String> = if key_matches(&e.key, "selector") {
                                match read_string_setting(&e.value, "selector") {
                                    Ok(s) => {
                                        f.selector = Some(s);
                                        Ok(())
                                    },
                                    Err(m) => Err(m),
                                }
                            } else if key_matches(&e.key, "attr") {
                                match read_string_setting(&e.value, "attr") {
                                    Ok(s) => {
                                        f.attr = Some(s);
                                        Ok(())
                                    },
                                    Err(m) => Err(m),
                                }
                            } else if key_matches(&e.key, "default") {
                                match &e.value {
                                    MetaValue::Empty => {
                                        f.default = true;
                                        Ok(())
                                    },
                                    _ => Err("expected `,`".to_owned()),
                                }
                            } else if key_matches(&e.key, "regex") {
                                match read_string_setting(&e.value, "regex") {
                                    Ok(s) => {
                                        f.regex = Some(s);
                                        Ok(())
                                    },
                                    Err(m) => Err(m),
                                }
                            } else if key_matches(&e.key, "transform") {
                                match read_string_setting(&e.value, "transform") {
                                    Ok(s) => {
                                        f.transform = Some(s);
                                        Ok(())
                                    },
                                    Err(m) => Err(m),
                                }
                            } else {
                                Err(unknown_key(&e.key, "unknown field attribute"))
                            };
                            match step {
                                Ok(()) => {},
                                Err(m) => {
                                    proof {
                                        lemma_field_settings_err(start, entries@, j + 1);
                                        assert(attrs@.take(i + 1).drop_last() == attrs@.take(i as int));
                                        lemma_field_attrs_err(attrs@, i + 1);
                                    }
                                    return Err(m);
                                },
                            }
                            j = j + 1;
                        }
                        assert(entries@.take(entries@.len() as int) == entries@);
                    },
                    _ => {
                        proof {
                            lemma_field_attrs_err(attrs@, i + 1);
                        }
                        return Err(no_list(&a.args, "field"));
                    },
                }
            }
            i = i + 1;
        }
        assert(attrs@.take(attrs@.len() as int) == attrs@);
        Ok(f)
    }
}

} // verus!

//! What deriving an item decides: whether the declaration can be an item,
//! the selector of its elements, and, for each field, whether it is
//! extracted and by which rule.

use vstd::prelude::*;

use crate::fields::opt_view;
use crate::item_attrs::{
    field_rule, generate_field_extraction, validate_container_selector, validate_struct_only,
    ContainerAttrs, DataKind, FieldAttrs, FieldExtraction, FieldType,
};
use crate::settings::{field_attrs, field_view, item_attrs, AttrInput, FieldSettings};

verus! {

/// A named field of the declaration.
#[derive(Debug, Clone)]
pub struct FieldDecl {
    pub name: String,
    pub ty: FieldType,
    pub attrs: Vec<AttrInput>,
}

/// The fields of a struct.
#[derive(Debug, Clone)]
pub enum FieldsDecl {
    /// `struct S { a: A, ... }`
    Named(Vec<FieldDecl>),
    /// `struct S(A, ...);`
    Unnamed,
    /// `struct S;`
    Unit,
}

/// What the derived extraction does for one field.
#[derive(Debug, Clone)]
pub struct FieldPlan {
    /// The field's name.
    pub name: String,
    /// The field's settings.
    pub settings: FieldAttrs,
    /// The rule by which the field is extracted.
    pub rule: FieldExtraction,
}

/// What the derived `Item` implementation does.
#[derive(Debug, Clone)]
pub struct ItemPlan {
    /// The selector of the item's elements.
    pub selector: String,
    /// The extracted fields, in declaration order.
    pub fields: Vec<FieldPlan>,
}

/// The fields that are extracted, with their settings, in declaration
/// order: those whose attributes read without error and give a selector.
pub open spec fn kept_fields(decls: Seq<FieldDecl>) -> Seq<(FieldDecl, FieldSettings)>
    decreases decls.len(),
{
    if decls.len() == 0 {
        Seq::empty()
    } else {
        let rest = kept_fields(decls.drop_last());
        let d = decls.last();
        match field_attrs(d.attrs@) {
            Ok(st) => if st.0 is Some {
                rest.push((d, st))
            } else {
                rest
            },
            Err(_) => rest,
        }
    }
}

/// The named fields of a struct; none for the other forms.
pub open spec fn named_fields(fields: FieldsDecl) -> Seq<FieldDecl> {
    match fields {
        FieldsDecl::Named(v) => v@,
        _ => Seq::empty(),
    }
}

/// Whether `plans` extracts exactly the kept fields of `fields`, in order,
/// each with its settings and its rule.
pub open spec fn plans_fields(plans: Seq<FieldPlan>, fields: FieldsDecl) -> bool {
    let kept = kept_fields(named_fields(fields));
    &&& plans.len() == kept.len()
    &&& forall|k: int|
        0 <= k < plans.len() ==> {
            &&& (#[trigger] plans[k]).name@ == kept[k].0.name@
            &&& field_view(plans[k].settings) == kept[k].1
            &&& plans[k].rule == field_rule(kept[k].0.ty, plans[k].settings)
        }
}

/// The plan of each field that is extracted. A field whose attributes do
/// not read, or that has no selector, is left out.
pub fn generate_field_extractions(fields: &FieldsDecl) -> (r: Vec<FieldPlan>)
    ensures
        plans_fields(r@, *fields),
{
    let mut plans: Vec<FieldPlan> = Vec::new();
    match fields {
        FieldsDecl::Named(decls) => {
            let mut i: usize = 0;
            while i < decls.len()
                invariant
                    *fields == FieldsDecl::Named(*decls),
                    i <= decls@.len(),
                    ({
                        let kept = kept_fields(decls@.take(i as int));
                        &&& plans@.len() == kept.len()
                        &&& forall|k: int|
                            0 <= k < plans@.len() ==> {
                                &&& (#[trigger] plans@[k]).name@ == kept[k].0.name@
                                &&& field_view(plans@[k].settings) == kept[k].1
                                &&& plans@[k].rule == field_rule(kept[k].0.ty, plans@[k].settings)
                            }
                    }),
                decreases decls@.len() - i,
            {
                assert(decls@.take(i as int + 1).drop_last() == decls@.take(i as int));
                let d = &decls[i];
                match FieldAttrs::from_attributes(&d.attrs) {
                    Ok(settings) => {
                        if settings.selector.is_some() {
                            let rule = generate_field_extraction(&d.ty, &settings);
                            plans.push(FieldPlan { name: d.name.clone(), settings, rule });
                        }
                    },
                    Err(_) => {},
                }
                i = i + 1;
            }
            assert(decls@.take(decls@.len() as int) == decls@);
        },
        _ => {},
    }
    plans
}

/// A declaration an item is derived for: a struct whose attributes give a
/// selector.
pub struct ItemDecl {
    container_attrs: ContainerAttrs,
    fields: FieldsDecl,
}

impl ItemDecl {
    #[verifier::type_invariant]
    spec fn has_selector(self) -> bool {
        self.container_attrs.selector is Some
    }

    /// The selector of the item's elements.
    pub closed spec fn selector(self) -> Seq<char> {
        self.container_attrs.selector.unwrap()@
    }

    /// The struct's fields.
    pub closed spec fn fields(self) -> FieldsDecl {
        self.fields
    }

    /// Checks a declaration: a struct, whose attributes read without error
    /// and give a selector.
    pub fn try_from(kind: DataKind, attrs: &Vec<AttrInput>, fields: FieldsDecl) -> (r: Result<ItemDecl, String>)
        ensures
            kind == DataKind::Enum ==> (r matches Err(e) && e@
                == "Item can only be derived for structs, not enums"@),
            kind == DataKind::Union ==> (r matches Err(e) && e@
                == "Item can only be derived for structs, not unions"@),
            kind == DataKind::Struct ==> match item_attrs(attrs@) {
                Err(m) => r matches Err(e) && e@ == m,
                Ok(None) => r matches Err(e) && e@
                    == "Item derive requires a selector attribute: #[item(selector = \"...\")]"@,
                Ok(Some(s)) => r matches Ok(d) && d.selector() == s && d.fields() == fields,
            },
    {
        match validate_struct_only(kind) {
            Ok(()) => {},
            Err(m) => return Err(m),
        }
        let container_attrs = match ContainerAttrs::from_attributes(attrs) {
            Ok(c) => c,
            Err(m) => return Err(m),
        };
        match validate_container_selector(&container_attrs) {
            Ok(()) => {},
            Err(m) => return Err(m),
        }
        Ok(ItemDecl { container_attrs, fields })
    }

    /// The derived implementation: the item's selector, and the plan of
    /// each extracted field.
    pub fn generate_impl(&self) -> (r: ItemPlan)
        ensures
            r.selector@ == self.selector(),
            plans_fields(r.fields@, self.fields()),
    {
        proof {
            use_type_invariant(self);
        }
        let selector = match &self.container_attrs.selector {
            Some(s) => s.clone(),
            None => String::new(),
        };
        ItemPlan { selector, fields: generate_field_extractions(&self.fields) }
    }
}

proof fn lemma_kept_have_selectors(decls: Seq<FieldDecl>)
    ensures
        forall|k: int| 0 <= k < kept_fields(decls).len() ==> (#[trigger] kept_fields(decls)[k]).1.0 is Some,
    decreases decls.len(),
{
    if decls.len() > 0 {
        lemma_kept_have_selectors(decls.drop_last());
    }
}

/// Every field that the derived extraction reads has a selector: a field
/// without one, or whose attributes do not read, is never extracted.
pub proof fn extracted_fields_have_selectors(plans: Seq<FieldPlan>, fields: FieldsDecl)
    requires
        plans_fields(plans, fields),
    ensures
        forall|k: int| 0 <= k < plans.len() ==> (#[trigger] plans[k]).settings.selector is Some,
{
    lemma_kept_have_selectors(named_fields(fields));
    assert forall|k: int| 0 <= k < plans.len() implies (#[trigger] plans[k]).settings.selector is Some by {
        assert(field_view(plans[k].settings).0 == opt_view(plans[k].settings.selector));
    }
}

/// Derives an item: the plan of its implementation, or the error that
/// stops the derivation.
pub fn item_derive(kind: DataKind, attrs: &Vec<AttrInput>, fields: FieldsDecl) -> (r: Result<ItemPlan, String>)
    ensures
        kind == DataKind::Enum ==> (r matches Err(e) && e@ == "Item can only be derived for structs, not enums"@),
        kind == DataKind::Union ==> (r matches Err(e) && e@ == "Item can only be derived for structs, not unions"@),
        kind == DataKind::Struct ==> match item_attrs(attrs@) {
            Err(m) => r matches Err(e) && e@ == m,
            Ok(None) => r matches Err(e) && e@
                == "Item derive requires a selector attribute: #[item(selector = \"...\")]"@,
            Ok(Some(s)) => r matches Ok(p) && p.selector@ == s && plans_fields(p.fields@, fields),
        },
{
    match ItemDecl::try_from(kind, attrs, fields) {
        Ok(decl) => Ok(decl.generate_impl()),
        Err(m) => Err(m),
    }
}

} // verus!

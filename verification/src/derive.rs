//! What `#[derive(YesNoArg)]` generates for an enum: the companion struct's
//! name, its two flags and fields, and their help texts; or why the enum is
//! refused.

use vstd::prelude::*;
use crate::attrs::{
    attrs_outcome, opt_view, parse_yesno_enum_attrs, parse_yesno_variant_attrs, AttrError,
    AttrErrorKind, AttrErrorView, AttrFault,
};
use crate::model::{Data, DeriveInput};
use crate::text::{concat_str, dashes_to_underscores, kebab_case, to_kebab_case, underscored};

verus! {

/// Where a refused `#[yesno(...)]` attribute stands.
pub enum AttrOwner {
    Enum,
    /// On the variant with this index.
    Variant(usize),
}

/// Where a refused attribute stands (spec view).
pub enum AttrOwnerView {
    Enum,
    Variant(nat),
}

impl View for AttrOwner {
    type V = AttrOwnerView;

    open spec fn view(&self) -> AttrOwnerView {
        match self {
            AttrOwner::Enum => AttrOwnerView::Enum,
            AttrOwner::Variant(i) => AttrOwnerView::Variant(*i as nat),
        }
    }
}

/// Why the derive refuses its input (spec view).
pub enum DeriveFault {
    Attr { owner: AttrOwnerView, error: AttrErrorView },
    NotAnEnum,
    WrongVariantCount,
    VariantWithFields(nat),
}

/// Why the derive refuses its input.
pub enum DeriveError {
    /// A `#[yesno(...)]` attribute was refused.
    Attr { owner: AttrOwner, error: AttrError },
    /// The item is a struct or a union.
    NotAnEnum,
    /// The enum does not have exactly two variants.
    WrongVariantCount,
    /// The variant with this index has fields.
    VariantWithFields(usize),
}

impl View for DeriveError {
    type V = DeriveFault;

    open spec fn view(&self) -> DeriveFault {
        match self {
            DeriveError::Attr { owner, error } => DeriveFault::Attr { owner: owner@, error: error@ },
            DeriveError::NotAnEnum => DeriveFault::NotAnEnum,
            DeriveError::WrongVariantCount => DeriveFault::WrongVariantCount,
            DeriveError::VariantWithFields(i) => DeriveFault::VariantWithFields(*i as nat),
        }
    }
}

/// The message that reports a refusal.
pub open spec fn fault_message(f: DeriveFault) -> Seq<char> {
    match f {
        DeriveFault::Attr { error, .. } => match error.fault {
            AttrFault::UnexpectedKey(k) => "unexpected yesno attribute; expected `"@ + k + "`"@,
            AttrFault::InvalidValue(m) => m,
            AttrFault::Malformed(m) => m,
        },
        DeriveFault::NotAnEnum => "YesNoArg can only be used on enums"@,
        DeriveFault::WrongVariantCount => "YesNoArg requires exactly two variants"@,
        DeriveFault::VariantWithFields(_) => "YesNoArg variants must have no fields"@,
    }
}

impl DeriveError {
    /// The message that reports this refusal.
    pub fn message(&self) -> (m: String)
        ensures
            m@ == fault_message(self@),
    {
        match self {
            DeriveError::Attr { error, .. } => match &error.kind {
                AttrErrorKind::UnexpectedKey(k) => {
                    let head = concat_str("unexpected yesno attribute; expected `", k.as_str());
                    concat_str(head.as_str(), "`")
                },
                AttrErrorKind::InvalidValue(m) => m.clone(),
                AttrErrorKind::Malformed(m) => m.clone(),
            },
            DeriveError::NotAnEnum => String::from_str("YesNoArg can only be used on enums"),
            DeriveError::WrongVariantCount => String::from_str(
                "YesNoArg requires exactly two variants",
            ),
            DeriveError::VariantWithFields(_) => String::from_str(
                "YesNoArg variants must have no fields",
            ),
        }
    }
}

/// What the derive generates for an enum (spec view).
pub struct YesNoArgPlanView {
    pub struct_name: Seq<char>,
    pub enum_name: Seq<char>,
    pub pos_variant: Seq<char>,
    pub neg_variant: Seq<char>,
    pub pos_flag: Seq<char>,
    pub neg_flag: Seq<char>,
    pub pos_field: Seq<char>,
    pub neg_field: Seq<char>,
    pub pos_help: Option<Seq<char>>,
    pub neg_help: Option<Seq<char>>,
}

/// What the derive generates for an enum: a struct `struct_name` with the
/// boolean fields `pos_field` (flag `--pos_flag`, selecting `pos_variant`)
/// and `neg_field` (flag `--neg_flag`, selecting `neg_variant`), each with
/// its optional help text.
pub struct YesNoArgPlan {
    pub struct_name: String,
    pub enum_name: String,
    pub pos_variant: String,
    pub neg_variant: String,
    pub pos_flag: String,
    pub neg_flag: String,
    pub pos_field: String,
    pub neg_field: String,
    pub pos_help: Option<String>,
    pub neg_help: Option<String>,
}

impl View for YesNoArgPlan {
    type V = YesNoArgPlanView;

    open spec fn view(&self) -> YesNoArgPlanView {
        YesNoArgPlanView {
            struct_name: self.struct_name@,
            enum_name: self.enum_name@,
            pos_variant: self.pos_variant@,
            neg_variant: self.neg_variant@,
            pos_flag: self.pos_flag@,
            neg_flag: self.neg_flag@,
            pos_field: self.pos_field@,
            neg_field: self.neg_field@,
            pos_help: opt_view(self.pos_help),
            neg_help: opt_view(self.neg_help),
        }
    }
}

/// The stem of both flag names: the `name` given by the attribute, or else
/// the enum's name in kebab-case.
pub open spec fn flag_stem(enum_name: Seq<char>, name: Option<Seq<char>>) -> Seq<char> {
    match name {
        Some(n) => n,
        None => kebab_case(enum_name),
    }
}

/// The generated names for an enum with the given name, variants, stem
/// setting and help texts.
pub open spec fn plan_for(
    enum_name: Seq<char>,
    pos_variant: Seq<char>,
    neg_variant: Seq<char>,
    name: Option<Seq<char>>,
    pos_help: Option<Seq<char>>,
    neg_help: Option<Seq<char>>,
) -> YesNoArgPlanView {
    let stem = flag_stem(enum_name, name);
    YesNoArgPlanView {
        struct_name: enum_name + "Arg"@,
        enum_name,
        pos_variant,
        neg_variant,
        pos_flag: stem,
        neg_flag: "no-"@ + stem,
        pos_field: underscored(stem),
        neg_field: "no_"@ + underscored(stem),
        pos_help,
        neg_help,
    }
}

/// What the derive does with its input: the enum's attributes are read
/// first; then the item must be an enum of exactly two variants, each
/// without fields (the first one that has fields is reported); then the
/// attributes of the first and of the second variant are read.
pub open spec fn derive_outcome(input: DeriveInput) -> Result<YesNoArgPlanView, DeriveFault> {
    match attrs_outcome(input.attrs@, "name"@) {
        Err(e) => Err(DeriveFault::Attr { owner: AttrOwnerView::Enum, error: e }),
        Ok(name) => match input.data {
            Data::Other => Err(DeriveFault::NotAnEnum),
            Data::Enum(variants) => {
                let v = variants@;
                if v.len() != 2 {
                    Err(DeriveFault::WrongVariantCount)
                } else if !v[0].is_unit {
                    Err(DeriveFault::VariantWithFields(0))
                } else if !v[1].is_unit {
                    Err(DeriveFault::VariantWithFields(1))
                } else {
                    match attrs_outcome(v[0].attrs@, "help"@) {
                        Err(e) => Err(
                            DeriveFault::Attr { owner: AttrOwnerView::Variant(0), error: e },
                        ),
                        Ok(pos_help) => match attrs_outcome(v[1].attrs@, "help"@) {
                            Err(e) => Err(
                                DeriveFault::Attr { owner: AttrOwnerView::Variant(1), error: e },
                            ),
                            Ok(neg_help) => Ok(
                                plan_for(
                                    input.ident@,
                                    v[0].ident@,
                                    v[1].ident@,
                                    name,
                                    pos_help,
                                    neg_help,
                                ),
                            ),
                        },
                    }
                }
            },
        },
    }
}

/// Whether an exec result matches a spec outcome.
pub open spec fn derive_matches(
    r: Result<YesNoArgPlan, DeriveError>,
    s: Result<YesNoArgPlanView, DeriveFault>,
) -> bool {
    match (r, s) {
        (Ok(p), Ok(q)) => p@ == q,
        (Err(e), Err(f)) => e@ == f,
        _ => false,
    }
}

/// Decides what `#[derive(YesNoArg)]` generates for `input`, or why it
/// refuses it.
pub fn derive_yes_no_arg_inner(input: DeriveInput) -> (r: Result<YesNoArgPlan, DeriveError>)
    ensures
        derive_matches(r, derive_outcome(input)),
        r matches Ok(p) ==> input.data matches Data::Enum(vs) && vs@.len() == 2
            && attrs_outcome(vs@[0].attrs@, "help"@) == Ok::<_, AttrErrorView>(opt_view(p.pos_help))
            && attrs_outcome(vs@[1].attrs@, "help"@) == Ok::<_, AttrErrorView>(opt_view(p.neg_help)),
{
    let enum_attr = match parse_yesno_enum_attrs(&input.attrs) {
        Ok(a) => a,
        Err(error) => {
            return Err(DeriveError::Attr { owner: AttrOwner::Enum, error });
        },
    };
    let variants = match &input.data {
        Data::Enum(vs) => vs,
        Data::Other => {
            return Err(DeriveError::NotAnEnum);
        },
    };
    if variants.len() != 2 {
        return Err(DeriveError::WrongVariantCount);
    }
    if !variants[0].is_unit {
        return Err(DeriveError::VariantWithFields(0));
    }
    if !variants[1].is_unit {
        return Err(DeriveError::VariantWithFields(1));
    }
    let pos = &variants[0];
    let neg = &variants[1];
    let pos_attr = match parse_yesno_variant_attrs(&pos.attrs) {
        Ok(a) => a,
        Err(error) => {
            return Err(DeriveError::Attr { owner: AttrOwner::Variant(0), error });
        },
    };
    let neg_attr = match parse_yesno_variant_attrs(&neg.attrs) {
        Ok(a) => a,
        Err(error) => {
            return Err(DeriveError::Attr { owner: AttrOwner::Variant(1), error });
        },
    };
    let struct_name = concat_str(input.ident.as_str(), "Arg");
    let stem = match enum_attr.name {
        Some(n) => n,
        None => to_kebab_case(input.ident.as_str()),
    };
    let neg_flag = concat_str("no-", stem.as_str());
    let pos_field = dashes_to_underscores(stem.as_str());
    let neg_field = concat_str("no_", pos_field.as_str());
    Ok(
        YesNoArgPlan {
            struct_name,
            enum_name: input.ident.clone(),
            pos_variant: pos.ident.clone(),
            neg_variant: neg.ident.clone(),
            pos_flag: stem,
            neg_flag,
            pos_field,
            neg_field,
            pos_help: pos_attr.help,
            neg_help: neg_attr.help,
        },
    )
}

} // verus!

//! Properties that hold of every derive the library accepts.

use vstd::prelude::*;
use crate::attrs::{attrs_outcome, items_outcome, yesno_path, AttrErrorView};
use crate::derive::{derive_outcome, AttrOwnerView, DeriveFault};
use crate::model::{Attribute, Data, DeriveInput, NestedMeta};
use crate::text::{
    char_cases, has_uppercase_property, kebab_case, kebab_of_cases, underscored, CharCase,
};

verus! {

/// The two flags pair up: the negative flag is the positive one behind
/// `no-`, each field is its flag with every `-` turned into `_`, and the
/// struct is named after the enum with `Arg` appended.
pub proof fn flag_names_pair_up(input: DeriveInput)
    requires
        derive_outcome(input) is Ok,
    ensures
        ({
            let p = derive_outcome(input)->Ok_0;
            &&& p.neg_flag == "no-"@ + p.pos_flag
            &&& p.pos_field == underscored(p.pos_flag)
            &&& p.neg_field == underscored(p.neg_flag)
            &&& p.struct_name == input.ident@ + "Arg"@
            &&& p.enum_name == input.ident@
        }),
{
    reveal_strlit("no-");
    reveal_strlit("no_");
    let p = derive_outcome(input)->Ok_0;
    assert(underscored(p.neg_flag) =~= "no_"@ + underscored(p.pos_flag));
}

/// The flag name stem is the enum-level `name = "..."` when one is given,
/// and the enum's name in kebab-case otherwise.
pub proof fn stem_follows_name_attribute(input: DeriveInput)
    requires
        derive_outcome(input) is Ok,
    ensures
        attrs_outcome(input.attrs@, "name"@) matches Ok(Some(n)) ==> derive_outcome(
            input,
        )->Ok_0.pos_flag == n,
        attrs_outcome(input.attrs@, "name"@) == Ok::<_, crate::attrs::AttrErrorView>(
            None::<Seq<char>>,
        ) ==> derive_outcome(input)->Ok_0.pos_flag == kebab_case(input.ident@),
{
}

/// A refused enum-level attribute is reported before anything about the
/// item's shape, whatever the item is.
pub proof fn enum_attribute_refusal_comes_first(input: DeriveInput)
    requires
        attrs_outcome(input.attrs@, "name"@) is Err,
    ensures
        derive_outcome(input) == Err::<crate::derive::YesNoArgPlanView, _>(
            DeriveFault::Attr {
                owner: AttrOwnerView::Enum,
                error: attrs_outcome(input.attrs@, "name"@)->Err_0,
            },
        ),
{
}

/// Each flag's help text is the one its own variant gives: the positive
/// flag's is what the first variant's `yesno` attributes give for `help`,
/// the negative flag's what the second variant's give, and none where that
/// variant gives none.
pub proof fn help_texts_come_from_own_variant(input: DeriveInput)
    requires
        derive_outcome(input) is Ok,
    ensures
        input.data matches Data::Enum(vs) && vs@.len() == 2 && {
            let p = derive_outcome(input)->Ok_0;
            &&& attrs_outcome(vs@[0].attrs@, "help"@) == Ok::<_, AttrErrorView>(p.pos_help)
            &&& attrs_outcome(vs@[1].attrs@, "help"@) == Ok::<_, AttrErrorView>(p.neg_help)
        },
{
}

/// A refusal's position once the attribute `k` was put into the list: the
/// attributes from `k` on moved one place up.
pub open spec fn after_insertion(e: AttrErrorView, k: int) -> AttrErrorView {
    if e.attr >= k {
        AttrErrorView { attr: e.attr + 1, ..e }
    } else {
        e
    }
}

/// An attribute whose path is not `yesno` changes nothing, wherever it is
/// put in the list: the value read is the same, and a refusal is the same
/// one (its index counted in the longer list).
pub proof fn other_attributes_are_transparent(
    attrs: Seq<Attribute>,
    k: int,
    other: Attribute,
    key: Seq<char>,
)
    requires
        0 <= k <= attrs.len(),
        other.path@ != yesno_path(),
    ensures
        attrs_outcome(attrs.insert(k, other), key) == match attrs_outcome(attrs, key) {
            Ok(v) => Ok(v),
            Err(e) => Err(after_insertion(e, k)),
        },
    decreases attrs.len(),
{
    let longer = attrs.insert(k, other);
    if k == attrs.len() {
        assert(longer.drop_last() =~= attrs);
        assert(longer.last() == other);
        match attrs_outcome(attrs, key) {
            Ok(v) => {},
            Err(e) => {
                lemma_refusal_index_in_range(attrs, key);
                assert(after_insertion(e, k) == e);
            },
        }
    } else {
        assert(longer.drop_last() =~= attrs.drop_last().insert(k, other));
        assert(longer.last() == attrs.last());
        other_attributes_are_transparent(attrs.drop_last(), k, other, key);
        match attrs_outcome(attrs.drop_last(), key) {
            Ok(v) => {},
            Err(e) => {
                assert(attrs_outcome(attrs, key) == Err::<Option<Seq<char>>, _>(e));
            },
        }
    }
}

/// A refusal names an attribute of the list.
pub proof fn lemma_refusal_index_in_range(attrs: Seq<Attribute>, key: Seq<char>)
    ensures
        attrs_outcome(attrs, key) matches Err(e) ==> e.attr < attrs.len(),
    decreases attrs.len(),
{
    if attrs.len() > 0 {
        lemma_refusal_index_in_range(attrs.drop_last(), key);
    }
}

/// A well-formed `#[yesno(key = "v")]` put after a list that reads without
/// refusal makes `v` the value read: the last value given wins.
pub proof fn last_value_wins(attrs: Seq<Attribute>, key: Seq<char>, last: Attribute, v: Seq<char>)
    requires
        attrs_outcome(attrs, key) is Ok,
        last.path@ == yesno_path(),
        last.trailing_error is None,
        last.items@.len() == 1,
        last.items@[0].path@ == key,
        last.items@[0].value matches Ok(lit) && lit@ == v,
    ensures
        attrs_outcome(attrs.push(last), key) == Ok::<_, AttrErrorView>(Some(v)),
{
    assert(attrs.push(last).drop_last() =~= attrs);
    assert(last.items@.drop_last().len() == 0);
    let found = attrs_outcome(attrs, key)->Ok_0;
    assert(items_outcome(last.items@.drop_last(), key, found) == Ok::<_, (nat, crate::attrs::AttrFault)>(found));
}

/// A `yesno` attribute without entries, well-formed, leaves the value read
/// as it was.
pub proof fn empty_yesno_keeps_value(attrs: Seq<Attribute>, key: Seq<char>, last: Attribute)
    requires
        last.path@ == yesno_path(),
        last.trailing_error is None,
        last.items@.len() == 0,
    ensures
        attrs_outcome(attrs.push(last), key) == attrs_outcome(attrs, key),
{
    assert(attrs.push(last).drop_last() =~= attrs);
}

/// Kebab-case splits at any point: converting a name made of two non-empty
/// parts is converting each part, with a `-` between them exactly when the
/// second part starts with an uppercase character.
pub proof fn kebab_of_cases_splits(a: Seq<CharCase>, b: Seq<CharCase>)
    requires
        a.len() > 0,
        b.len() > 0,
    ensures
        kebab_of_cases(a + b) == kebab_of_cases(a) + (if b[0].0 {
            seq!['-']
        } else {
            Seq::<char>::empty()
        }) + kebab_of_cases(b),
    decreases b.len(),
{
    if b.len() == 1 {
        assert((a + b).drop_last() =~= a);
        assert(kebab_of_cases(b.drop_last()) =~= Seq::<char>::empty());
    } else {
        assert((a + b).drop_last() =~= a + b.drop_last());
        kebab_of_cases_splits(a, b.drop_last());
        assert(b.drop_last()[0] == b[0]);
    }
    assert(kebab_of_cases(a + b) =~= kebab_of_cases(a) + (if b[0].0 {
        seq!['-']
    } else {
        Seq::<char>::empty()
    }) + kebab_of_cases(b));
}

/// A single character becomes its lowercase form, with no `-`.
pub proof fn kebab_of_single_case(c: CharCase)
    ensures
        kebab_of_cases(seq![c]) == seq![c.1],
{
    let empty = Seq::<CharCase>::empty();
    assert(seq![c].drop_last() =~= empty);
    assert(kebab_of_cases(empty) == Seq::<char>::empty());
    assert(kebab_of_cases(seq![c]) =~= seq![c.1]);
}

/// The kebab-case of a name made of two non-empty parts is the kebab-case of
/// each part, joined by a `-` exactly when the second part starts with an
/// uppercase character; so every uppercase character after the first gets
/// its `-`, whatever its position.
pub proof fn kebab_case_splits(s: Seq<char>, t: Seq<char>)
    requires
        s.len() > 0,
        t.len() > 0,
    ensures
        kebab_case(s + t) == kebab_case(s) + (if has_uppercase_property(t[0]) {
            seq!['-']
        } else {
            Seq::<char>::empty()
        }) + kebab_case(t),
{
    assert(char_cases(s + t) =~= char_cases(s) + char_cases(t));
    kebab_of_cases_splits(char_cases(s), char_cases(t));
}

/// Turning dashes into underscores keeps the length and every character
/// but `-`, which becomes `_`; a name without `-` is left as it is.
pub proof fn underscored_changes_only_dashes(s: Seq<char>)
    ensures
        underscored(s).len() == s.len(),
        forall|i: int|
            0 <= i < s.len() ==> #[trigger] underscored(s)[i] == (if s[i] == '-' {
                '_'
            } else {
                s[i]
            }),
        (forall|i: int| 0 <= i < s.len() ==> s[i] != '-') ==> underscored(s) == s,
{
    assert((forall|i: int| 0 <= i < s.len() ==> s[i] != '-') ==> underscored(s) =~= s);
}

} // verus!

use vstd::prelude::*;

use crate::expand::{
    attr_scan, expansion_of, item_scan, lemma_attr_scan_err, lemma_item_scan_err, property_of,
    self_of,
};
use crate::model::{
    AttributeView, ClassDecl, ClassDeclView, ConstItemView, ErrorKind, ExpansionView, GenError,
    ItemView, PropertyView, Site,
};
use crate::names::display_of;

verus! {

/// Expansion depends on nothing but what the declaration holds: two
/// declarations that read the same give the same expansion or the same error.
pub proof fn lemma_expansion_deterministic(d1: ClassDecl, d2: ClassDecl)
    requires
        d1@ == d2@,
    ensures
        expansion_of(d1@) == expansion_of(d2@),
{
}

/// Different property names under one target type give different display
/// names.
pub proof fn lemma_display_injective(self_name: Seq<char>, a: Seq<char>, b: Seq<char>)
    requires
        a != b,
    ensures
        display_of(self_name, a) != display_of(self_name, b),
{
    reveal_strlit("::");
    let n: int = self_name.len() as int + 2;
    assert(display_of(self_name, a).subrange(n, display_of(self_name, a).len() as int) =~= a);
    assert(display_of(self_name, b).subrange(n, display_of(self_name, b).len() as int) =~= b);
}

/// What every property read so far satisfies: it comes from a constant
/// item before `n` with its identifier as name, the properties keep the
/// order of their items, and each display name is built from the target
/// type's name.
pub open spec fn scanned_properties(
    items: Seq<ItemView>,
    self_name: Seq<char>,
    n: nat,
    props: Seq<PropertyView>,
) -> bool {
    &&& forall|k: int|
        0 <= k < props.len() ==> {
            &&& 0 <= #[trigger] props[k].item < n
            &&& items[props[k].item] is Const
            &&& props[k].name == items[props[k].item]->Const_0.ident
            &&& props[k].display_name == display_of(self_name, props[k].name)
        }
    &&& forall|k: int, l: int| 0 <= k < l < props.len() ==> props[k].item < props[l].item
}

pub proof fn lemma_scan_properties(items: Seq<ItemView>, self_name: Seq<char>, n: nat)
    requires
        n <= items.len() <= usize::MAX,
        item_scan(items, self_name, n) is Ok,
    ensures
        scanned_properties(items, self_name, n, item_scan(items, self_name, n)->Ok_0.properties),
    decreases n,
{
    if n > 0 {
        let m = (n - 1) as nat;
        lemma_scan_properties(items, self_name, m);
        let prev = item_scan(items, self_name, m)->Ok_0.properties;
        let props = item_scan(items, self_name, n)->Ok_0.properties;
        if items[m as int] is Const {
            let p = property_of(items[m as int]->Const_0, m as usize, self_name)->Ok_0;
            assert(props == prev.push(p));
            assert(p.item == m);
        } else {
            assert(props == prev);
        }
        assert forall|k: int| 0 <= k < props.len() implies {
            &&& 0 <= #[trigger] props[k].item < n
            &&& items[props[k].item] is Const
            &&& props[k].name == items[props[k].item]->Const_0.ident
            &&& props[k].display_name == display_of(self_name, props[k].name)
        } by {
            if k < prev.len() {
                assert(props[k] == prev[k]);
            }
        }
        assert forall|k: int, l: int| 0 <= k < l < props.len() implies props[k].item
            < props[l].item by {
            if l < prev.len() {
                assert(props[k] == prev[k]);
                assert(props[l] == prev[l]);
            } else {
                assert(props[k] == prev[k]);
                assert(prev[k].item < m);
            }
        }
    }
}

/// Key uniqueness: two properties of one expansion with different names
/// come from different constants and get different display names, so their
/// key types, each named after its property, never coincide.
pub proof fn lemma_distinct_keys(d: ClassDeclView, i: int, j: int)
    requires
        d.items.len() <= usize::MAX,
        expansion_of(d) is Ok,
        0 <= i < expansion_of(d)->Ok_0.properties.len(),
        0 <= j < expansion_of(d)->Ok_0.properties.len(),
        expansion_of(d)->Ok_0.properties[i].name != expansion_of(d)->Ok_0.properties[j].name,
    ensures
        expansion_of(d)->Ok_0.properties[i].item != expansion_of(d)->Ok_0.properties[j].item,
        expansion_of(d)->Ok_0.properties[i].display_name
            != expansion_of(d)->Ok_0.properties[j].display_name,
{
    let name = self_of(d.self_ty)->Ok_0.0;
    lemma_scan_properties(d.items, name, d.items.len());
    let ps = expansion_of(d)->Ok_0.properties;
    assert(ps[i].item < d.items.len());
    assert(ps[j].item < d.items.len());
    lemma_display_injective(name, ps[i].name, ps[j].name);
}

/// Whether the attribute list holds an attribute named `name`.
pub open spec fn has_attr(attrs: Seq<AttributeView>, name: Seq<char>) -> bool {
    exists|j: int| 0 <= j < attrs.len() && #[trigger] attrs[j].path == name
}

/// Whether every `fold` attribute of the list carries an expression.
pub open spec fn folds_parse(attrs: Seq<AttributeView>) -> bool {
    forall|j: int| 0 <= j < attrs.len() && #[trigger] attrs[j].path == "fold"@ ==> attrs[j].args_parse
}

pub proof fn lemma_attr_flags(attrs: Seq<AttributeView>, item: usize, n: nat)
    requires
        n <= attrs.len(),
        folds_parse(attrs),
    ensures
        attr_scan(attrs, item, n) is Ok,
        attr_scan(attrs, item, n)->Ok_0.shorthand == has_attr(attrs.take(n as int), "shorthand"@),
        attr_scan(attrs, item, n)->Ok_0.variadic == has_attr(attrs.take(n as int), "variadic"@),
    decreases n,
{
    reveal_strlit("fold");
    reveal_strlit("shorthand");
    reveal_strlit("variadic");
    reveal_strlit("skip");
    assert("fold"@.len() == 4 && "shorthand"@.len() == 9 && "variadic"@.len() == 8);
    assert("shorthand"@[0] != "variadic"@[0]);
    if n > 0 {
        let m = (n - 1) as nat;
        lemma_attr_flags(attrs, item, m);
        let prev = attrs.take(m as int);
        let cur = attrs.take(n as int);
        assert(forall|j: int| 0 <= j < m ==> prev[j] == cur[j]);
        assert(cur[m as int] == attrs[m as int]);
        if has_attr(prev, "shorthand"@) {
            let j = choose|j: int| 0 <= j < prev.len() && #[trigger] prev[j].path == "shorthand"@;
            assert(cur[j].path == "shorthand"@);
        }
        if has_attr(prev, "variadic"@) {
            let j = choose|j: int| 0 <= j < prev.len() && #[trigger] prev[j].path == "variadic"@;
            assert(cur[j].path == "variadic"@);
        }
        if has_attr(cur, "shorthand"@) && attrs[m as int].path != "shorthand"@ {
            let j = choose|j: int| 0 <= j < cur.len() && #[trigger] cur[j].path == "shorthand"@;
            assert(prev[j].path == "shorthand"@);
        }
        if has_attr(cur, "variadic"@) && attrs[m as int].path != "variadic"@ {
            let j = choose|j: int| 0 <= j < cur.len() && #[trigger] cur[j].path == "variadic"@;
            assert(prev[j].path == "variadic"@);
        }
    }
}

/// A property constant that is both `shorthand` and `variadic` fails with
/// `ConflictingAttributes`, whatever its other attributes, as long as each
/// of its `fold` attributes carries an expression (else that is reported
/// first).
pub proof fn lemma_conflict(c: ConstItemView, item: usize, self_name: Seq<char>)
    requires
        has_attr(c.attrs, "shorthand"@),
        has_attr(c.attrs, "variadic"@),
        folds_parse(c.attrs),
    ensures
        property_of(c, item, self_name) == Err::<PropertyView, GenError>(
            GenError { kind: ErrorKind::ConflictingAttributes, site: Site::Item(item) },
        ),
{
    lemma_attr_flags(c.attrs, item, c.attrs.len());
    assert(c.attrs.take(c.attrs.len() as int) =~= c.attrs);
}

/// Once item `k` fails, the whole declaration fails, and when the header
/// and the items before `k` are in order it fails with the error of `k`.
pub proof fn lemma_failing_item(d: ClassDeclView, k: int)
    requires
        0 <= k < d.items.len(),
        self_of(d.self_ty) is Ok ==> item_scan(d.items, self_of(d.self_ty)->Ok_0.0, k as nat) is Ok
            ==> item_scan(d.items, self_of(d.self_ty)->Ok_0.0, (k + 1) as nat) is Err,
    ensures
        expansion_of(d) is Err,
        self_of(d.self_ty) is Ok && item_scan(d.items, self_of(d.self_ty)->Ok_0.0, k as nat) is Ok
            ==> expansion_of(d) == Err::<ExpansionView, GenError>(
            item_scan(d.items, self_of(d.self_ty)->Ok_0.0, (k + 1) as nat)->Err_0,
        ),
{
    if self_of(d.self_ty) is Ok {
        let name = self_of(d.self_ty)->Ok_0.0;
        if item_scan(d.items, name, k as nat) is Ok {
            lemma_item_scan_err(d.items, name, (k + 1) as nat, d.items.len());
        } else {
            lemma_item_scan_err(d.items, name, k as nat, d.items.len());
        }
    }
}

/// A declaration whose property constant at item `k` is both `shorthand`
/// and `variadic` fails; when nothing before it fails and its `fold`
/// attributes carry expressions, the error is `ConflictingAttributes` on it.
pub proof fn lemma_conflicting_declaration(d: ClassDeclView, k: int)
    requires
        0 <= k < d.items.len(),
        d.items[k] is Const,
        has_attr(d.items[k]->Const_0.attrs, "shorthand"@),
        has_attr(d.items[k]->Const_0.attrs, "variadic"@),
    ensures
        expansion_of(d) is Err,
        folds_parse(d.items[k]->Const_0.attrs) && self_of(d.self_ty) is Ok && item_scan(
            d.items,
            self_of(d.self_ty)->Ok_0.0,
            k as nat,
        ) is Ok ==> expansion_of(d) == Err::<ExpansionView, GenError>(
            GenError { kind: ErrorKind::ConflictingAttributes, site: Site::Item(k as usize) },
        ),
{
    let c = d.items[k]->Const_0;
    if folds_parse(c.attrs) {
        lemma_conflict(c, k as usize, self_of(d.self_ty)->Ok_0.0);
    } else {
        let j = choose|j: int|
            0 <= j < c.attrs.len() && #[trigger] c.attrs[j].path == "fold"@ && !c.attrs[j].args_parse;
        assert(attr_scan(c.attrs, k as usize, (j + 1) as nat) is Err) by {
            if attr_scan(c.attrs, k as usize, j as nat) is Err {
                lemma_attr_scan_err(c.attrs, k as usize, j as nat, (j + 1) as nat);
            }
        }
        lemma_attr_scan_err(c.attrs, k as usize, (j + 1) as nat, c.attrs.len());
    }
    lemma_failing_item(d, k);
}

/// A declaration that holds a method named anything but `construct` or
/// `set` fails; when nothing before that method fails, the error is
/// `UnexpectedMethod` on it.
pub proof fn lemma_unexpected_method(d: ClassDeclView, k: int)
    requires
        0 <= k < d.items.len(),
        d.items[k] is Method,
        d.items[k]->Method_0 != "construct"@,
        d.items[k]->Method_0 != "set"@,
    ensures
        expansion_of(d) is Err,
        self_of(d.self_ty) is Ok && item_scan(d.items, self_of(d.self_ty)->Ok_0.0, k as nat) is Ok
            ==> expansion_of(d) == Err::<ExpansionView, GenError>(
            GenError { kind: ErrorKind::UnexpectedMethod, site: Site::Item(k as usize) },
        ),
{
    lemma_failing_item(d, k);
}

/// Every item up to `n` is a property constant that reads without error or
/// a method named `set`.
pub open spec fn only_properties_and_set(items: Seq<ItemView>, self_name: Seq<char>, n: nat) -> bool {
    forall|i: int|
        0 <= i < n ==> match #[trigger] items[i] {
            ItemView::Const(c) => property_of(c, i as usize, self_name) is Ok,
            ItemView::Method(name) => name == "set"@,
            ItemView::Other => false,
        }
}

pub proof fn lemma_scan_without_construct(items: Seq<ItemView>, self_name: Seq<char>, n: nat)
    requires
        n <= items.len(),
        only_properties_and_set(items, self_name, n),
    ensures
        item_scan(items, self_name, n) is Ok,
        item_scan(items, self_name, n)->Ok_0.construct is None,
    decreases n,
{
    reveal_strlit("set");
    reveal_strlit("construct");
    if n > 0 {
        let m = (n - 1) as nat;
        assert("set"@.len() == 3 && "construct"@.len() == 9);
        assert(only_properties_and_set(items, self_name, m));
        lemma_scan_without_construct(items, self_name, m);
        let it = items[m as int];
        assert(match it {
            ItemView::Const(c) => property_of(c, m as usize, self_name) is Ok,
            ItemView::Method(name) => name == "set"@,
            ItemView::Other => false,
        });
    }
}

/// A declaration of property constants and a `set` method, with no
/// `construct` method, fails with `MissingConstructor`, given that its
/// header names a type and its constants read without error.
pub proof fn lemma_missing_constructor(d: ClassDeclView)
    requires
        self_of(d.self_ty) is Ok,
        only_properties_and_set(d.items, self_of(d.self_ty)->Ok_0.0, d.items.len()),
    ensures
        expansion_of(d) == Err::<ExpansionView, GenError>(
            GenError { kind: ErrorKind::MissingConstructor, site: Site::Whole },
        ),
{
    lemma_scan_without_construct(d.items, self_of(d.self_ty)->Ok_0.0, d.items.len());
}

} // verus!

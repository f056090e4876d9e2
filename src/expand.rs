use vstd::prelude::*;

use crate::model::{
    Attribute, AttributeView, ClassDecl, ClassDeclView, ConstItem, ConstItemView, ErrorKind,
    Expansion, ExpansionView, Fallback, GenError, GenericArg, Item, ItemView, PathArgs,
    PathArgsView, Property, PropertyView, SelfType, SelfTypeView, SetPlan, SetPlanView, SetStmt,
    SetStmtView, index_seq,
};
use crate::names::{
    arg_name, arg_name_of, display_name, display_of, is_text, module_name, module_of,
};

verus! {

pub open spec fn opt_int(o: Option<usize>) -> Option<int> {
    match o {
        Some(j) => Some(j as int),
        None => None,
    }
}

/// The indices of the type arguments among the first `n` generic arguments.
pub open spec fn type_arg_indices(args: Seq<GenericArg>, n: nat) -> Seq<int>
    decreases n,
{
    if n == 0 {
        seq![]
    } else {
        let rest = type_arg_indices(args, (n - 1) as nat);
        if args[n - 1] == GenericArg::Type {
            rest.push(n - 1)
        } else {
            rest
        }
    }
}

pub open spec fn self_args_of(a: PathArgsView) -> Seq<int> {
    match a {
        PathArgsView::AngleBracketed(args) => type_arg_indices(args, args.len()),
        _ => seq![],
    }
}

/// The target type's name and type arguments: those of the last segment of
/// its path. Any other header is malformed.
pub open spec fn self_of(t: SelfTypeView) -> Result<(Seq<char>, Seq<int>), GenError> {
    match t {
        SelfTypeView::Path(segs) => if segs.len() > 0 {
            Ok((segs.last().ident, self_args_of(segs.last().args)))
        } else {
            Err(GenError { kind: ErrorKind::MalformedSelfType, site: crate::model::Site::SelfType })
        },
        SelfTypeView::Other => Err(
            GenError { kind: ErrorKind::MalformedSelfType, site: crate::model::Site::SelfType },
        ),
    }
}

/// What the attributes of a property say, read so far.
pub struct AttrState {
    pub fold: Option<int>,
    pub kept: Seq<int>,
    pub shorthand: bool,
    pub variadic: bool,
    pub skip: bool,
}

/// Reads attribute `j` of the constant at item `item`. A `fold` attribute
/// whose argument is no expression is an error; a later `fold` replaces an
/// earlier one; attributes of other names are kept.
pub open spec fn attr_step(s: AttrState, a: AttributeView, item: usize, j: usize) -> Result<
    AttrState,
    GenError,
> {
    if a.path == "fold"@ {
        if a.args_parse {
            Ok(AttrState { fold: Some(j as int), ..s })
        } else {
            Err(GenError { kind: ErrorKind::InvalidFold, site: crate::model::Site::Attr(item, j) })
        }
    } else if a.path == "shorthand"@ {
        Ok(AttrState { shorthand: true, ..s })
    } else if a.path == "variadic"@ {
        Ok(AttrState { variadic: true, ..s })
    } else if a.path == "skip"@ {
        Ok(AttrState { skip: true, ..s })
    } else {
        Ok(AttrState { kept: s.kept.push(j as int), ..s })
    }
}

/// The first `n` attributes read in order.
pub open spec fn attr_scan(attrs: Seq<AttributeView>, item: usize, n: nat) -> Result<
    AttrState,
    GenError,
>
    decreases n,
{
    if n == 0 {
        Ok(AttrState { fold: None, kept: seq![], shorthand: false, variadic: false, skip: false })
    } else {
        match attr_scan(attrs, item, (n - 1) as nat) {
            Ok(s) => attr_step(s, attrs[n - 1], item, (n - 1) as usize),
            Err(e) => Err(e),
        }
    }
}

/// The property that the constant at item `item` declares.
pub open spec fn property_of(c: ConstItemView, item: usize, self_name: Seq<char>) -> Result<
    PropertyView,
    GenError,
> {
    match attr_scan(c.attrs, item, c.attrs.len()) {
        Err(e) => Err(e),
        Ok(s) => if s.shorthand && s.variadic {
            Err(
                GenError {
                    kind: ErrorKind::ConflictingAttributes,
                    site: crate::model::Site::Item(item),
                },
            )
        } else {
            Ok(
                PropertyView {
                    item: item as int,
                    name: c.ident,
                    display_name: display_of(self_name, c.ident),
                    fold: s.fold,
                    kept_attrs: s.kept,
                    shorthand: s.shorthand,
                    variadic: s.variadic,
                    skip: s.skip,
                },
            )
        },
    }
}

/// What the items of the class body say, read so far.
pub struct ScanState {
    pub construct: Option<int>,
    pub set: Option<int>,
    pub properties: Seq<PropertyView>,
}

/// Reads item `i`: a constant adds a property, a method named `construct`
/// or `set` is recorded (a later one replaces an earlier one), and anything
/// else is an error.
pub open spec fn item_step(s: ScanState, it: ItemView, i: usize, self_name: Seq<char>) -> Result<
    ScanState,
    GenError,
> {
    match it {
        ItemView::Const(c) => match property_of(c, i, self_name) {
            Ok(p) => Ok(ScanState { properties: s.properties.push(p), ..s }),
            Err(e) => Err(e),
        },
        ItemView::Method(name) => if name == "construct"@ {
            Ok(ScanState { construct: Some(i as int), ..s })
        } else if name == "set"@ {
            Ok(ScanState { set: Some(i as int), ..s })
        } else {
            Err(GenError { kind: ErrorKind::UnexpectedMethod, site: crate::model::Site::Item(i) })
        },
        ItemView::Other => Err(
            GenError { kind: ErrorKind::UnexpectedItem, site: crate::model::Site::Item(i) },
        ),
    }
}

/// The first `n` items read in order.
pub open spec fn item_scan(items: Seq<ItemView>, self_name: Seq<char>, n: nat) -> Result<
    ScanState,
    GenError,
>
    decreases n,
{
    if n == 0 {
        Ok(ScanState { construct: None, set: None, properties: seq![] })
    } else {
        match item_scan(items, self_name, (n - 1) as nat) {
            Ok(s) => item_step(s, items[n - 1], (n - 1) as usize, self_name),
            Err(e) => Err(e),
        }
    }
}

pub open spec fn fallback_of(p: PropertyView) -> Fallback {
    if p.variadic {
        Fallback::AllRemaining
    } else if p.shorthand {
        Fallback::FirstOfType
    } else {
        Fallback::Nothing
    }
}

pub open spec fn stmt_of(p: PropertyView) -> SetStmtView {
    SetStmtView { property: p.name, arg_name: arg_name_of(p.name), fallback: fallback_of(p) }
}

/// The statements of a generated setter for the first `n` properties: one
/// per property that is not skipped, in order.
pub open spec fn generated_sets(props: Seq<PropertyView>, n: nat) -> Seq<SetStmtView>
    decreases n,
{
    if n == 0 {
        seq![]
    } else {
        let rest = generated_sets(props, (n - 1) as nat);
        if props[n - 1].skip {
            rest
        } else {
            rest.push(stmt_of(props[n - 1]))
        }
    }
}

/// The expansion of a whole declaration.
pub open spec fn expansion_of(d: ClassDeclView) -> Result<ExpansionView, GenError> {
    match self_of(d.self_ty) {
        Err(e) => Err(e),
        Ok(header) => expansion_with(d, header.0, header.1),
    }
}

/// The expansion of the items of `d` for the target type `name` with the
/// type arguments `args`.
pub open spec fn expansion_with(d: ClassDeclView, name: Seq<char>, args: Seq<int>) -> Result<
    ExpansionView,
    GenError,
> {
    match item_scan(d.items, name, d.items.len()) {
        Err(e) => Err(e),
        Ok(s) => match s.construct {
            None => Err(
                GenError { kind: ErrorKind::MissingConstructor, site: crate::model::Site::Whole },
            ),
            Some(c) => Ok(
                ExpansionView {
                    module: module_of(name),
                    self_name: name,
                    self_args: args,
                    properties: s.properties,
                    construct: c,
                    set: match s.set {
                        Some(k) => SetPlanView::Given(k),
                        None => SetPlanView::Generated(
                            generated_sets(s.properties, s.properties.len()),
                        ),
                    },
                },
            ),
        },
    }
}

pub proof fn lemma_attr_scan_err(attrs: Seq<AttributeView>, item: usize, k: nat, n: nat)
    requires
        k <= n,
        attr_scan(attrs, item, k) is Err,
    ensures
        attr_scan(attrs, item, n) == attr_scan(attrs, item, k),
    decreases n,
{
    if n > k {
        lemma_attr_scan_err(attrs, item, k, (n - 1) as nat);
    }
}

pub proof fn lemma_item_scan_err(items: Seq<ItemView>, self_name: Seq<char>, k: nat, n: nat)
    requires
        k <= n,
        item_scan(items, self_name, k) is Err,
    ensures
        item_scan(items, self_name, n) == item_scan(items, self_name, k),
    decreases n,
{
    if n > k {
        lemma_item_scan_err(items, self_name, k, (n - 1) as nat);
    }
}

/// Splits the target type's header into its name and the indices of its
/// type arguments.
pub fn parse_self(t: &SelfType) -> (r: Result<(String, Vec<usize>), GenError>)
    ensures
        match r {
            Ok((name, args)) => self_of(t@) == Ok::<(Seq<char>, Seq<int>), GenError>(
                (name@, index_seq(args@)),
            ),
            Err(e) => self_of(t@) == Err::<(Seq<char>, Seq<int>), GenError>(e),
        },
{
    let malformed = GenError { kind: ErrorKind::MalformedSelfType, site: crate::model::Site::SelfType };
    match t {
        SelfType::Path(segs) => {
            if segs.len() == 0 {
                return Err(malformed);
            }
            let last = &segs[segs.len() - 1];
            let mut args: Vec<usize> = Vec::new();
            if let PathArgs::AngleBracketed(generic) = &last.args {
                let mut j: usize = 0;
                while j < generic.len()
                    invariant
                        j <= generic.len(),
                        index_seq(args@) == type_arg_indices(generic@, j as nat),
                    decreases generic.len() - j,
                {
                    if generic[j] == GenericArg::Type {
                        args.push(j);
                    }
                    proof {
                        assert(index_seq(args@) =~= type_arg_indices(generic@, (j + 1) as nat));
                    }
                    j = j + 1;
                }
            }
            proof {
                assert(t@->Path_0.last() == last@);
                assert(index_seq(args@) =~= self_args_of(last@.args));
            }
            Ok((last.ident.clone(), args))
        },
        SelfType::Other => Err(malformed),
    }
}

/// Reads the attributes of the property constant at item `index` and builds
/// its property, with the display name under the target type `self_name`.
pub fn process_const(c: &ConstItem, index: usize, self_name: &String) -> (r: Result<
    Property,
    GenError,
>)
    ensures
        match r {
            Ok(p) => property_of(c@, index, self_name@) == Ok::<PropertyView, GenError>(p@),
            Err(e) => property_of(c@, index, self_name@) == Err::<PropertyView, GenError>(e),
        },
{
    let mut fold: Option<usize> = None;
    let mut kept: Vec<usize> = Vec::new();
    let mut shorthand = false;
    let mut variadic = false;
    let mut skip = false;
    let mut j: usize = 0;
    proof {
        assert(index_seq(kept@) =~= seq![]);
    }
    while j < c.attrs.len()
        invariant
            j <= c.attrs.len(),
            attr_scan(c@.attrs, index, j as nat) == Ok::<AttrState, GenError>(
                AttrState {
                    fold: opt_int(fold),
                    kept: index_seq(kept@),
                    shorthand,
                    variadic,
                    skip,
                },
            ),
        decreases c.attrs.len() - j,
    {
        let a: &Attribute = &c.attrs[j];
        proof {
            assert(c@.attrs[j as int] == a@);
        }
        if is_text(&a.path, "fold") {
            if !a.args_parse {
                let e = GenError { kind: ErrorKind::InvalidFold, site: crate::model::Site::Attr(index, j) };
                proof {
                    lemma_attr_scan_err(c@.attrs, index, (j + 1) as nat, c@.attrs.len());
                }
                return Err(e);
            }
            fold = Some(j);
        } else if is_text(&a.path, "shorthand") {
            shorthand = true;
        } else if is_text(&a.path, "variadic") {
            variadic = true;
        } else if is_text(&a.path, "skip") {
            skip = true;
        } else {
            let ghost before = kept@;
            kept.push(j);
            proof {
                assert(index_seq(kept@) =~= index_seq(before).push(j as int));
            }
        }
        j = j + 1;
    }
    if shorthand && variadic {
        return Err(
            GenError { kind: ErrorKind::ConflictingAttributes, site: crate::model::Site::Item(index) },
        );
    }
    Ok(
        Property {
            item: index,
            name: c.ident.clone(),
            display_name: display_name(self_name, &c.ident),
            fold,
            kept_attrs: kept,
            shorthand,
            variadic,
            skip,
        },
    )
}

/// The statements of the setter generated for `props`.
pub fn generate_set(props: &Vec<Property>) -> (r: Vec<SetStmt>)
    ensures
        r@.map_values(|s: SetStmt| s@) == generated_sets(
            props@.map_values(|p: Property| p@),
            props@.len(),
        ),
{
    let ghost pv = props@.map_values(|p: Property| p@);
    let mut out: Vec<SetStmt> = Vec::new();
    let mut i: usize = 0;
    while i < props.len()
        invariant
            i <= props.len(),
            pv == props@.map_values(|p: Property| p@),
            out@.map_values(|s: SetStmt| s@) == generated_sets(pv, i as nat),
        decreases props.len() - i,
    {
        let p = &props[i];
        proof {
            assert(pv[i as int] == p@);
        }
        if !p.skip {
            let fallback = if p.variadic {
                Fallback::AllRemaining
            } else if p.shorthand {
                Fallback::FirstOfType
            } else {
                Fallback::Nothing
            };
            let stmt = SetStmt { property: p.name.clone(), arg_name: arg_name(&p.name), fallback };
            let ghost before = out@;
            out.push(stmt);
            proof {
                assert(out@.map_values(|s: SetStmt| s@) =~= before.map_values(|s: SetStmt| s@).push(
                    stmt_of(pv[i as int]),
                ));
            }
        }
        i = i + 1;
    }
    out
}

/// Expands a class declaration: the target type's header, then each item in
/// order, then the setter, which is the declared one or a generated one.
pub fn expand(d: &ClassDecl) -> (r: Result<Expansion, GenError>)
    ensures
        match r {
            Ok(e) => expansion_of(d@) == Ok::<ExpansionView, GenError>(e@),
            Err(e) => expansion_of(d@) == Err::<ExpansionView, GenError>(e),
        },
{
    let parsed = parse_self(&d.self_ty);
    let (self_name, self_args) = match parsed {
        Ok(x) => x,
        Err(e) => return Err(e),
    };
    assert(self_of(d@.self_ty) == Ok::<(Seq<char>, Seq<int>), GenError>(
        (self_name@, index_seq(self_args@)),
    ));
    let ghost items = d@.items;
    let mut construct: Option<usize> = None;
    let mut set: Option<usize> = None;
    let mut properties: Vec<Property> = Vec::new();
    let mut i: usize = 0;
    proof {
        assert(properties@.map_values(|p: Property| p@) =~= seq![]);
    }
    while i < d.items.len()
        invariant
            i <= d.items.len(),
            items == d@.items,
            self_of(d@.self_ty) == Ok::<(Seq<char>, Seq<int>), GenError>(
                (self_name@, index_seq(self_args@)),
            ),
            item_scan(items, self_name@, i as nat) == Ok::<ScanState, GenError>(
                ScanState {
                    construct: opt_int(construct),
                    set: opt_int(set),
                    properties: properties@.map_values(|p: Property| p@),
                },
            ),
        decreases d.items.len() - i,
    {
        let it = &d.items[i];
        proof {
            assert(items[i as int] == it@);
        }
        match it {
            Item::Const(c) => {
                match process_const(c, i, &self_name) {
                    Ok(p) => {
                        let ghost before = properties@;
                        properties.push(p);
                        proof {
                            assert(properties@.map_values(|p: Property| p@) =~= before.map_values(
                                |p: Property| p@,
                            ).push(p@));
                        }
                    },
                    Err(e) => {
                        proof {
                            assert(item_scan(items, self_name@, (i + 1) as nat) == Err::<ScanState, GenError>(e));
                            lemma_item_scan_err(items, self_name@, (i + 1) as nat, items.len());
                        }
                        return Err(e);
                    },
                }
            },
            Item::Method(name) => {
                if is_text(name, "construct") {
                    construct = Some(i);
                } else if is_text(name, "set") {
                    set = Some(i);
                } else {
                    proof {
                        lemma_item_scan_err(items, self_name@, (i + 1) as nat, items.len());
                    }
                    return Err(
                        GenError {
                            kind: ErrorKind::UnexpectedMethod,
                            site: crate::model::Site::Item(i),
                        },
                    );
                }
            },
            Item::Other => {
                proof {
                    assert(item_scan(items, self_name@, (i + 1) as nat) is Err);
                    lemma_item_scan_err(items, self_name@, (i + 1) as nat, items.len());
                }
                return Err(
                    GenError { kind: ErrorKind::UnexpectedItem, site: crate::model::Site::Item(i) },
                );
            },
        }
        i = i + 1;
    }
    let construct = match construct {
        Some(k) => k,
        None => {
            return Err(
                GenError { kind: ErrorKind::MissingConstructor, site: crate::model::Site::Whole },
            )
        },
    };
    let set = match set {
        Some(k) => SetPlan::Given(k),
        None => SetPlan::Generated(generate_set(&properties)),
    };
    let module = module_name(&self_name);
    Ok(Expansion { module, self_name, self_args, properties, construct, set })
}

} // verus!

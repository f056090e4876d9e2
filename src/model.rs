use vstd::prelude::*;

verus! {

/// One generic argument of the target type's header; only its kind matters.
#[derive(Clone, Copy, Debug, PartialEq, Eq, Structural)]
pub enum GenericArg {
    Type,
    Other,
}

/// The arguments that follow one segment of a path.
#[derive(Clone, Debug)]
pub enum PathArgs {
    Plain,
    AngleBracketed(Vec<GenericArg>),
    Parenthesized,
}

/// One segment of the target type's path, such as `TextNode<T>`.
#[derive(Clone, Debug)]
pub struct Segment {
    pub ident: String,
    pub args: PathArgs,
}

/// The header naming the type that the class is declared for.
#[derive(Clone, Debug)]
pub enum SelfType {
    Path(Vec<Segment>),
    Other,
}

/// An attribute on a property constant. `path` is the attribute's name when
/// its path is one identifier, and otherwise a text that holds `::`.
/// `args_parse` tells whether its arguments read as one expression.
#[derive(Clone, Debug)]
pub struct Attribute {
    pub path: String,
    pub args_parse: bool,
}

/// A property constant `NAME: Type = default`, with its attributes.
#[derive(Clone, Debug)]
pub struct ConstItem {
    pub ident: String,
    pub attrs: Vec<Attribute>,
}

/// One item of the class body.
#[derive(Clone, Debug)]
pub enum Item {
    Const(ConstItem),
    Method(String),
    Other,
}

/// A whole class declaration: the target type and the ordered items.
#[derive(Clone, Debug)]
pub struct ClassDecl {
    pub self_ty: SelfType,
    pub items: Vec<Item>,
}

/// A property as the attribute processor leaves it. `item` is the index of
/// its constant among the declaration's items, `fold` the index of the
/// attribute that gives its combinator, and `kept_attrs` the indices of the
/// attributes that stay on the constant.
#[derive(Clone, Debug)]
pub struct Property {
    pub item: usize,
    pub name: String,
    pub display_name: String,
    pub fold: Option<usize>,
    pub kept_attrs: Vec<usize>,
    pub shorthand: bool,
    pub variadic: bool,
    pub skip: bool,
}

/// Where a generated setter looks when no named argument matches.
#[derive(Clone, Copy, Debug, PartialEq, Eq, Structural)]
pub enum Fallback {
    Nothing,
    AllRemaining,
    FirstOfType,
}

/// One statement of a generated setter: the property that it writes, the
/// name of the argument that it reads, and its fallback.
#[derive(Clone, Debug)]
pub struct SetStmt {
    pub property: String,
    pub arg_name: String,
    pub fallback: Fallback,
}

/// The setter of the class: the declared method (by item index) or a
/// generated one.
#[derive(Clone, Debug)]
pub enum SetPlan {
    Given(usize),
    Generated(Vec<SetStmt>),
}

/// What is to be emitted for one declaration. `self_args` are the indices
/// of the type arguments among the generic arguments of the header's last
/// segment; `construct` is the item index of the construct method.
#[derive(Clone, Debug)]
pub struct Expansion {
    pub module: String,
    pub self_name: String,
    pub self_args: Vec<usize>,
    pub properties: Vec<Property>,
    pub construct: usize,
    pub set: SetPlan,
}

#[derive(Clone, Copy, Debug, PartialEq, Eq, Structural)]
pub enum ErrorKind {
    UnexpectedItem,
    UnexpectedMethod,
    MissingConstructor,
    ConflictingAttributes,
    MalformedSelfType,
    InvalidFold,
}

/// The part of the declaration that an error is reported on.
#[derive(Clone, Copy, Debug, PartialEq, Eq, Structural)]
pub enum Site {
    SelfType,
    Item(usize),
    Attr(usize, usize),
    Whole,
}

#[derive(Clone, Copy, Debug, PartialEq, Eq, Structural)]
pub struct GenError {
    pub kind: ErrorKind,
    pub site: Site,
}

pub enum PathArgsView {
    Plain,
    AngleBracketed(Seq<GenericArg>),
    Parenthesized,
}

pub struct SegmentView {
    pub ident: Seq<char>,
    pub args: PathArgsView,
}

pub enum SelfTypeView {
    Path(Seq<SegmentView>),
    Other,
}

pub struct AttributeView {
    pub path: Seq<char>,
    pub args_parse: bool,
}

pub struct ConstItemView {
    pub ident: Seq<char>,
    pub attrs: Seq<AttributeView>,
}

pub enum ItemView {
    Const(ConstItemView),
    Method(Seq<char>),
    Other,
}

pub struct ClassDeclView {
    pub self_ty: SelfTypeView,
    pub items: Seq<ItemView>,
}

pub struct PropertyView {
    pub item: int,
    pub name: Seq<char>,
    pub display_name: Seq<char>,
    pub fold: Option<int>,
    pub kept_attrs: Seq<int>,
    pub shorthand: bool,
    pub variadic: bool,
    pub skip: bool,
}

pub struct SetStmtView {
    pub property: Seq<char>,
    pub arg_name: Seq<char>,
    pub fallback: Fallback,
}

pub enum SetPlanView {
    Given(int),
    Generated(Seq<SetStmtView>),
}

pub struct ExpansionView {
    pub module: Seq<char>,
    pub self_name: Seq<char>,
    pub self_args: Seq<int>,
    pub properties: Seq<PropertyView>,
    pub construct: int,
    pub set: SetPlanView,
}

impl View for PathArgs {
    type V = PathArgsView;

    open spec fn view(&self) -> PathArgsView {
        match self {
            PathArgs::Plain => PathArgsView::Plain,
            PathArgs::AngleBracketed(a) => PathArgsView::AngleBracketed(a@),
            PathArgs::Parenthesized => PathArgsView::Parenthesized,
        }
    }
}

impl View for Segment {
    type V = SegmentView;

    open spec fn view(&self) -> SegmentView {
        SegmentView { ident: self.ident@, args: self.args@ }
    }
}

impl View for SelfType {
    type V = SelfTypeView;

    open spec fn view(&self) -> SelfTypeView {
        match self {
            SelfType::Path(segs) => SelfTypeView::Path(segs@.map_values(|s: Segment| s@)),
            SelfType::Other => SelfTypeView::Other,
        }
    }
}

impl View for Attribute {
    type V = AttributeView;

    open spec fn view(&self) -> AttributeView {
        AttributeView { path: self.path@, args_parse: self.args_parse }
    }
}

impl View for ConstItem {
    type V = ConstItemView;

    open spec fn view(&self) -> ConstItemView {
        ConstItemView { ident: self.ident@, attrs: self.attrs@.map_values(|a: Attribute| a@) }
    }
}

impl View for Item {
    type V = ItemView;

    open spec fn view(&self) -> ItemView {
        match self {
            Item::Const(c) => ItemView::Const(c@),
            Item::Method(name) => ItemView::Method(name@),
            Item::Other => ItemView::Other,
        }
    }
}

impl View for ClassDecl {
    type V = ClassDeclView;

    open spec fn view(&self) -> ClassDeclView {
        ClassDeclView { self_ty: self.self_ty@, items: self.items@.map_values(|i: Item| i@) }
    }
}

pub open spec fn index_seq(v: Seq<usize>) -> Seq<int> {
    v.map_values(|i: usize| i as int)
}

impl View for Property {
    type V = PropertyView;

    open spec fn view(&self) -> PropertyView {
        PropertyView {
            item: self.item as int,
            name: self.name@,
            display_name: self.display_name@,
            fold: match self.fold {
                Some(j) => Some(j as int),
                None => None,
            },
            kept_attrs: index_seq(self.kept_attrs@),
            shorthand: self.shorthand,
            variadic: self.variadic,
            skip: self.skip,
        }
    }
}

impl View for SetStmt {
    type V = SetStmtView;

    open spec fn view(&self) -> SetStmtView {
        SetStmtView { property: self.property@, arg_name: self.arg_name@, fallback: self.fallback }
    }
}

impl View for SetPlan {
    type V = SetPlanView;

    open spec fn view(&self) -> SetPlanView {
        match self {
            SetPlan::Given(k) => SetPlanView::Given(*k as int),
            SetPlan::Generated(stmts) => SetPlanView::Generated(
                stmts@.map_values(|s: SetStmt| s@),
            ),
        }
    }
}

impl View for Expansion {
    type V = ExpansionView;

    open spec fn view(&self) -> ExpansionView {
        ExpansionView {
            module: self.module@,
            self_name: self.self_name@,
            self_args: index_seq(self.self_args@),
            properties: self.properties@.map_values(|p: Property| p@),
            construct: self.construct as int,
            set: self.set@,
        }
    }
}

} // verus!

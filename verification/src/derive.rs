//! The rules by which a props type and its construction are derived from a
//! struct or enum definition.
//!
//! A definition is described by what the rules read of it: the shape of its
//! fields, each field's attributes and visibility. What is derived refers to
//! fields by their position in declaration order, so identifiers and types
//! need not travel through here.

use vstd::prelude::*;
use vstd::string::StringExecFns;

verus! {

/// The attribute that marks a field as deferred.
pub const PROP: &'static str = "prop";

/// What is appended to a type's name to name its props type.
pub const PROPS_SUFFIX: &'static str = "Props";

/// How visible a field is.
#[derive(Clone, Copy, Debug, PartialEq, Eq, Structural)]
pub enum Visibility {
    /// `pub`
    Public,
    /// `pub(crate)`, `pub(super)`, `pub(in ..)`: the qualifier written on the
    /// field, whichever scope it names.
    Restricted,
    /// No qualifier.
    Inherited,
}

/// The shape of a list of fields.
#[derive(Clone, Copy, Debug, PartialEq, Eq, Structural)]
pub enum FieldsKind {
    /// `{ a: A, b: B }`
    Named,
    /// `(A, B)`
    Unnamed,
    /// No field list at all.
    Unit,
}

/// One field of a definition.
pub struct Field {
    /// For each attribute on the field, the identifier that its path consists
    /// of, or `None` where the path is longer than one plain identifier.
    pub attrs: Vec<Option<String>>,
    pub vis: Visibility,
}

/// The fields of a struct or of one enum variant, in declaration order.
pub struct Fields {
    pub kind: FieldsKind,
    pub fields: Vec<Field>,
}

/// One variant of an enum.
pub struct Variant {
    pub fields: Fields,
}

/// The body of a definition.
pub enum Data {
    Struct(Fields),
    Enum(Vec<Variant>),
    Union,
}

/// A type definition as the derivation sees it.
pub struct DeriveInput {
    pub ident: String,
    pub data: Data,
}

/// One field of a props type: the field at `index` of the source, with that
/// field's own visibility qualifier, and wrapped as a deferred field or of
/// the source field's own type.
#[derive(Clone, Copy, Debug, PartialEq, Eq, Structural)]
pub struct PropsField {
    pub index: usize,
    pub vis: Visibility,
    pub deferred: bool,
}

/// The default of one field of a props type: for a deferred field, nested
/// props at their own default; for a direct field, its type's default.
#[derive(Clone, Copy, Debug, PartialEq, Eq, Structural)]
pub struct PropsFieldDefault {
    pub index: usize,
    pub deferred: bool,
}

/// Where construction finds the props of a field.
#[derive(Clone, Copy, Debug, PartialEq, Eq, Structural)]
pub enum PropsSource {
    /// In the field of the same position of the props value.
    Member,
    /// In the binding that the match on a variant's props made for the field.
    Binding,
}

/// One step of construction: the field at `index` of the instance is taken
/// from `source`, resolved first where it is deferred, handed on as it is
/// where it is direct.
#[derive(Clone, Copy, Debug, PartialEq, Eq, Structural)]
pub struct FromPropsField {
    pub index: usize,
    pub source: PropsSource,
    pub deferred: bool,
}

/// What is derived from one list of fields.
pub struct StructImpl {
    pub is_named: bool,
    /// The steps of construction, in the order in which they run.
    pub from_props_fields: Vec<FromPropsField>,
    pub props_fields: Vec<PropsField>,
    pub props_fields_defaults: Vec<PropsFieldDefault>,
}

pub struct StructImplView {
    pub is_named: bool,
    pub from_props_fields: Seq<FromPropsField>,
    pub props_fields: Seq<PropsField>,
    pub props_fields_defaults: Seq<PropsFieldDefault>,
}

impl View for StructImpl {
    type V = StructImplView;

    open spec fn view(&self) -> StructImplView {
        StructImplView {
            is_named: self.is_named,
            from_props_fields: self.from_props_fields@,
            props_fields: self.props_fields@,
            props_fields_defaults: self.props_fields_defaults@,
        }
    }
}

/// One variant of a props enum: the variant at `index` of the source, with
/// the shape `kind` and what is derived from its fields.
pub struct PropsVariant {
    pub index: usize,
    pub kind: FieldsKind,
    pub body: StructImpl,
}

pub struct PropsVariantView {
    pub index: usize,
    pub kind: FieldsKind,
    pub body: StructImplView,
}

impl View for PropsVariant {
    type V = PropsVariantView;

    open spec fn view(&self) -> PropsVariantView {
        PropsVariantView { index: self.index, kind: self.kind, body: self.body@ }
    }
}

/// The body of a props type.
pub enum PropsBody {
    /// A struct with the source's field layout.
    Struct(StructImpl),
    /// An enum with one variant for each of the source's; its default is the
    /// variant at `default_variant` with that variant's field defaults.
    Enum { variants: Vec<PropsVariant>, default_variant: Option<usize> },
}

pub enum PropsBodyView {
    Struct(StructImplView),
    Enum { variants: Seq<PropsVariantView>, default_variant: Option<usize> },
}

impl View for PropsBody {
    type V = PropsBodyView;

    open spec fn view(&self) -> PropsBodyView {
        match self {
            PropsBody::Struct(body) => PropsBodyView::Struct(body@),
            PropsBody::Enum { variants, default_variant } => PropsBodyView::Enum {
                variants: Seq::new(variants@.len(), |i: int| variants@[i]@),
                default_variant: *default_variant,
            },
        }
    }
}

/// A derived props type: its name and its body.
pub struct Derived {
    pub props_type: String,
    pub body: PropsBody,
}

pub struct DerivedView {
    pub props_type: Seq<char>,
    pub body: PropsBodyView,
}

impl View for Derived {
    type V = DerivedView;

    open spec fn view(&self) -> DerivedView {
        DerivedView { props_type: self.props_type@, body: self.body@ }
    }
}

/// Why nothing was derived.
#[derive(Clone, Copy, Debug, PartialEq, Eq, Structural)]
pub enum DeriveError {
    /// The definition is a union, which has no construction.
    UnsupportedUnion,
}

/// Whether an attribute is the marker of a deferred field.
pub open spec fn is_prop_marker(attr: Option<String>) -> bool {
    attr matches Some(ident) && ident@ == PROP@
}

impl Field {
    /// A field is deferred where one of its attributes is the marker.
    pub open spec fn spec_is_prop(&self) -> bool {
        exists|i: int| 0 <= i < self.attrs@.len() && is_prop_marker(#[trigger] self.attrs@[i])
    }

    /// Whether the field is marked as deferred.
    pub fn is_prop(&self) -> (r: bool)
        ensures
            r == self.spec_is_prop(),
    {
        let marker = String::from_str(PROP);
        let mut i: usize = 0;
        while i < self.attrs.len()
            invariant
                i <= self.attrs@.len(),
                marker@ == PROP@,
                forall|j: int| 0 <= j < i ==> !is_prop_marker(#[trigger] self.attrs@[j]),
            decreases self.attrs@.len() - i,
        {
            match &self.attrs[i] {
                Some(ident) => {
                    if *ident == marker {
                        return true;
                    }
                },
                None => {},
            }
            i += 1;
        }
        false
    }
}

/// The props field derived from `field`, the `index`-th of its list.
pub open spec fn props_field_of(field: Field, index: usize) -> PropsField {
    PropsField { index, vis: field.vis, deferred: field.spec_is_prop() }
}

/// The default derived for the props field of `field`.
pub open spec fn default_of(field: Field, index: usize) -> PropsFieldDefault {
    PropsFieldDefault { index, deferred: field.spec_is_prop() }
}

/// Where construction finds a field's props: the props of a struct are read
/// member by member, those of an enum variant are bound by the match on it.
pub open spec fn spec_source(is_enum: bool) -> PropsSource {
    if is_enum {
        PropsSource::Binding
    } else {
        PropsSource::Member
    }
}

/// The step of construction derived for `field`.
pub open spec fn from_props_of(field: Field, index: usize, is_enum: bool) -> FromPropsField {
    FromPropsField { index, source: spec_source(is_enum), deferred: field.spec_is_prop() }
}

/// What is derived from a list of fields: one props field, one default and
/// one step of construction for each field, in declaration order.
pub open spec fn spec_struct_impl(fields: Fields, is_enum: bool) -> StructImplView {
    StructImplView {
        is_named: fields.kind is Named,
        from_props_fields: Seq::new(
            fields.fields@.len(),
            |i: int| from_props_of(fields.fields@[i], i as usize, is_enum),
        ),
        props_fields: Seq::new(
            fields.fields@.len(),
            |i: int| props_field_of(fields.fields@[i], i as usize),
        ),
        props_fields_defaults: Seq::new(
            fields.fields@.len(),
            |i: int| default_of(fields.fields@[i], i as usize),
        ),
    }
}

/// The shape of a props variant: a variant without fields is a unit variant,
/// however its empty list was written.
pub open spec fn spec_variant_kind(fields: Fields) -> FieldsKind {
    if fields.fields@.len() == 0 {
        FieldsKind::Unit
    } else if fields.kind is Named {
        FieldsKind::Named
    } else {
        FieldsKind::Unnamed
    }
}

/// The props variant derived from `variant`, the `index`-th of its enum.
pub open spec fn spec_props_variant(variant: Variant, index: usize) -> PropsVariantView {
    PropsVariantView {
        index,
        kind: spec_variant_kind(variant.fields),
        body: spec_struct_impl(variant.fields, true),
    }
}

/// The body of the props type derived from `data`, which is no union.
pub open spec fn spec_props_body(data: Data) -> PropsBodyView {
    match data {
        Data::Struct(fields) => PropsBodyView::Struct(spec_struct_impl(fields, false)),
        Data::Enum(variants) => PropsBodyView::Enum {
            variants: Seq::new(
                variants@.len(),
                |i: int| spec_props_variant(variants@[i], i as usize),
            ),
            default_variant: if variants@.len() > 0 {
                Some(0usize)
            } else {
                None
            },
        },
        Data::Union => arbitrary(),
    }
}

/// The name of the props type of the type named `ident`.
pub open spec fn spec_props_type_name(ident: Seq<char>) -> Seq<char> {
    ident + PROPS_SUFFIX@
}

/// Derives, from one list of fields, the fields of the props type, their
/// defaults and the steps of construction. `is_enum` says that the fields are
/// those of an enum variant, whose props reach construction as bindings.
pub fn struct_impl(fields: &Fields, is_enum: bool) -> (r: StructImpl)
    ensures
        r@ == spec_struct_impl(*fields, is_enum),
{
    let mut from_props_fields: Vec<FromPropsField> = Vec::new();
    let mut props_fields: Vec<PropsField> = Vec::new();
    let mut props_fields_defaults: Vec<PropsFieldDefault> = Vec::new();
    let is_named = match fields.kind {
        FieldsKind::Named => true,
        _ => false,
    };
    let source = if is_enum {
        PropsSource::Binding
    } else {
        PropsSource::Member
    };
    let mut index: usize = 0;
    while index < fields.fields.len()
        invariant
            index <= fields.fields@.len(),
            source == spec_source(is_enum),
            from_props_fields@.len() == index,
            props_fields@.len() == index,
            props_fields_defaults@.len() == index,
            forall|j: int|
                0 <= j < index ==> from_props_fields@[j] == from_props_of(
                    fields.fields@[j],
                    j as usize,
                    is_enum,
                ),
            forall|j: int|
                0 <= j < index ==> props_fields@[j] == props_field_of(
                    fields.fields@[j],
                    j as usize,
                ),
            forall|j: int|
                0 <= j < index ==> props_fields_defaults@[j] == default_of(
                    fields.fields@[j],
                    j as usize,
                ),
        decreases fields.fields@.len() - index,
    {
        let field = &fields.fields[index];
        let is_prop = field.is_prop();
        props_fields.push(PropsField { index, vis: field.vis, deferred: is_prop });
        props_fields_defaults.push(PropsFieldDefault { index, deferred: is_prop });
        from_props_fields.push(FromPropsField { index, source, deferred: is_prop });
        index += 1;
    }
    let r = StructImpl { is_named, from_props_fields, props_fields, props_fields_defaults };
    proof {
        let want = spec_struct_impl(*fields, is_enum);
        assert(r@.from_props_fields =~= want.from_props_fields);
        assert(r@.props_fields =~= want.props_fields);
        assert(r@.props_fields_defaults =~= want.props_fields_defaults);
    }
    r
}

/// The positions of the deferred fields among the first `n` steps of
/// construction, in the order of the steps.
pub open spec fn spec_resolution_order(steps: Seq<FromPropsField>, n: int) -> Seq<usize>
    decreases n,
{
    if n <= 0 {
        Seq::empty()
    } else if steps[n - 1].deferred {
        spec_resolution_order(steps, n - 1).push(steps[n - 1].index)
    } else {
        spec_resolution_order(steps, n - 1)
    }
}

/// The fields that construction has to resolve, by position and in the order
/// in which it resolves them: the deferred fields in declaration order.
/// Direct fields are handed on and take no part.
pub fn resolution_order(body: &StructImpl) -> (r: Vec<usize>)
    ensures
        r@ == spec_resolution_order(
            body.from_props_fields@,
            body.from_props_fields@.len() as int,
        ),
{
    let mut order: Vec<usize> = Vec::new();
    let mut i: usize = 0;
    while i < body.from_props_fields.len()
        invariant
            i <= body.from_props_fields@.len(),
            order@ == spec_resolution_order(body.from_props_fields@, i as int),
        decreases body.from_props_fields@.len() - i,
    {
        let step = body.from_props_fields[i];
        if step.deferred {
            order.push(step.index);
        }
        i += 1;
    }
    order
}

/// The name of the props type of the type named `ident`.
pub fn props_type_name(ident: &str) -> (r: String)
    ensures
        r@ == spec_props_type_name(ident@),
{
    let mut name = String::from_str(ident);
    name.append(PROPS_SUFFIX);
    name
}

/// Derives the props type of a definition and the plan of its construction.
///
/// A struct gives a props struct of the same layout. An enum gives a props
/// enum with one variant for each of its own, whose default is the first
/// declared variant. A union gives nothing: it is refused.
pub fn derive_construct(input: &DeriveInput) -> (r: Result<Derived, DeriveError>)
    ensures
        match r {
            Ok(derived) => !(input.data is Union) && derived@ == (DerivedView {
                props_type: spec_props_type_name(input.ident@),
                body: spec_props_body(input.data),
            }),
            Err(e) => input.data is Union && e == DeriveError::UnsupportedUnion,
        },
{
    match &input.data {
        Data::Struct(fields) => {
            let body = struct_impl(fields, false);
            Ok(Derived { props_type: props_type_name(input.ident.as_str()), body: PropsBody::Struct(body) })
        },
        Data::Enum(variants) => {
            let mut props_variants: Vec<PropsVariant> = Vec::new();
            let mut first_variant: Option<usize> = None;
            let mut index: usize = 0;
            while index < variants.len()
                invariant
                    index <= variants@.len(),
                    props_variants@.len() == index,
                    first_variant == if index > 0 {
                        Some(0usize)
                    } else {
                        None
                    },
                    forall|j: int|
                        0 <= j < index ==> (#[trigger] props_variants@[j])@ == spec_props_variant(
                            variants@[j],
                            j as usize,
                        ),
                decreases variants@.len() - index,
            {
                let variant = &variants[index];
                let body = struct_impl(&variant.fields, true);
                if first_variant.is_none() {
                    first_variant = Some(index);
                }
                let kind = if variant.fields.fields.len() == 0 {
                    FieldsKind::Unit
                } else if body.is_named {
                    FieldsKind::Named
                } else {
                    FieldsKind::Unnamed
                };
                props_variants.push(PropsVariant { index, kind, body });
                index += 1;
            }
            let derived = Derived {
                props_type: props_type_name(input.ident.as_str()),
                body: PropsBody::Enum { variants: props_variants, default_variant: first_variant },
            };
            proof {
                let want = spec_props_body(input.data);
                assert(derived.body@->Enum_variants =~= want->Enum_variants);
            }
            Ok(derived)
        },
        Data::Union => Err(DeriveError::UnsupportedUnion),
    }
}

/// A props field has the visibility qualifier of its source field, whichever
/// of the three it is: a public field gives a public props field, a field
/// restricted to a scope one restricted in the same way, a private field a
/// private one. This holds in a struct and in an enum variant alike, and
/// whether or not the field is deferred.
pub proof fn lemma_visibility_is_kept(fields: Fields, is_enum: bool, i: int)
    requires
        0 <= i < fields.fields@.len(),
    ensures
        spec_struct_impl(fields, is_enum).props_fields[i].vis == fields.fields@[i].vis,
        spec_struct_impl(fields, is_enum).props_fields[i].vis is Public <==> fields.fields@[i].vis
            is Public,
        spec_struct_impl(fields, is_enum).props_fields[i].vis is Restricted
            <==> fields.fields@[i].vis is Restricted,
        spec_struct_impl(fields, is_enum).props_fields[i].vis is Inherited
            <==> fields.fields@[i].vis is Inherited,
{
}

/// Each field keeps its place: the props field, the default and the step of
/// construction at position `i` are those of the `i`-th declared field, so
/// construction resolves the fields in declaration order, and a field is
/// deferred in all three exactly where it is marked.
pub proof fn lemma_declaration_order_is_kept(fields: Fields, is_enum: bool, i: int)
    requires
        0 <= i < fields.fields@.len(),
    ensures
        spec_struct_impl(fields, is_enum).from_props_fields.len() == fields.fields@.len(),
        spec_struct_impl(fields, is_enum).from_props_fields[i].index == i as usize,
        spec_struct_impl(fields, is_enum).props_fields[i].index == i as usize,
        spec_struct_impl(fields, is_enum).props_fields_defaults[i].index == i as usize,
        spec_struct_impl(fields, is_enum).from_props_fields[i].deferred
            == fields.fields@[i].spec_is_prop(),
        spec_struct_impl(fields, is_enum).props_fields[i].deferred
            == fields.fields@[i].spec_is_prop(),
        spec_struct_impl(fields, is_enum).props_fields_defaults[i].deferred
            == fields.fields@[i].spec_is_prop(),
{
}

/// The default of the props type of an enum is its first declared variant,
/// whatever the later variants hold, with each field of that variant at the
/// field's own default.
pub proof fn lemma_enum_default_is_first_variant(variants: Vec<Variant>)
    requires
        variants@.len() > 0,
    ensures
        spec_props_body(Data::Enum(variants))->Enum_default_variant == Some(0usize),
        spec_props_body(Data::Enum(variants))->Enum_variants[0].index == 0,
        spec_props_body(Data::Enum(variants))->Enum_variants[0].body.props_fields_defaults
            == Seq::new(
            variants@[0].fields.fields@.len(),
            |j: int| default_of(variants@[0].fields.fields@[j], j as usize),
        ),
{
}

/// Construction resolves the fields in declaration order: in the order of
/// resolution derived from a list of fields, a field that is declared
/// earlier stands earlier, and every entry is the position of a deferred
/// field.
pub proof fn lemma_resolution_follows_declaration(fields: Fields, is_enum: bool, n: int)
    requires
        0 <= n <= fields.fields@.len() <= usize::MAX,
    ensures
        forall|k: int|
            0 <= k < spec_resolution_order(
                spec_struct_impl(fields, is_enum).from_props_fields,
                n,
            ).len() ==> {
                let at = #[trigger] spec_resolution_order(
                    spec_struct_impl(fields, is_enum).from_props_fields,
                    n,
                )[k];
                at < n && fields.fields@[at as int].spec_is_prop()
            },
        forall|j: int, k: int|
            0 <= j < k < spec_resolution_order(
                spec_struct_impl(fields, is_enum).from_props_fields,
                n,
            ).len() ==> spec_resolution_order(
                spec_struct_impl(fields, is_enum).from_props_fields,
                n,
            )[j] < spec_resolution_order(spec_struct_impl(fields, is_enum).from_props_fields, n)[k],
    decreases n,
{
    let steps = spec_struct_impl(fields, is_enum).from_props_fields;
    let now = spec_resolution_order(steps, n);
    if n > 0 {
        lemma_resolution_follows_declaration(fields, is_enum, n - 1);
        let before = spec_resolution_order(steps, n - 1);
        assert(steps[n - 1] == from_props_of(fields.fields@[n - 1], (n - 1) as usize, is_enum));
        if steps[n - 1].deferred {
            assert(now == before.push((n - 1) as usize));
            assert forall|k: int| 0 <= k < now.len() implies ({
                let at = #[trigger] now[k];
                at < n && fields.fields@[at as int].spec_is_prop()
            }) by {
                if k < before.len() {
                    assert(now[k] == before[k]);
                }
            }
            assert forall|j: int, k: int| 0 <= j < k < now.len() implies now[j] < now[k] by {
                assert(now[j] == before[j]);
                if k < before.len() {
                    assert(now[k] == before[k]);
                }
            }
        } else {
            assert(now == before);
        }
    }
}

} // verus!

//! The build-time association generator.
//!
//! Given the description of a composite shape's member list, or of a
//! dispatch contract, the generator synthesizes the declaration that
//! associates the shape with its metadata type:
//!
//! * for a composite, the association names the trailing member's metadata
//!   as the composite's own, and is conditional on the trailing member's
//!   shape already carrying an association of its own;
//! * for a dispatch contract, the metadata type is the dispatch-table
//!   handle parameterized by that exact contract — and by nothing wider:
//!   the same contract combined with auxiliary capability markers is a
//!   distinct shape needing its own association.
//!
//! A shape with no members, a tagged union or an untagged union is rejected
//! with a diagnostic: such shapes are always fixed-size and already carry
//! the trivial association.

use vstd::prelude::*;
use vstd::string::StringExecFns;

use crate::attributes::{parse_spec, AttrDef, Attributes};
use crate::diagnostic::Diagnostic;

verus! {

/// One member of a composite shape.
#[derive(Debug)]
pub struct FieldDef {
    /// The member's name, if it has one.
    pub name: Option<String>,
    /// The member's type, as text.
    pub ty: String,
}

/// One generic parameter of a declaration.
#[derive(Debug)]
pub struct ParamDef {
    /// The parameter's name.
    pub name: String,
    /// The bounds written on the parameter itself, if any.
    pub bounds: Option<String>,
}

/// The generic parameters and constraints of a declaration, as text.
#[derive(Debug)]
pub struct GenericsDef {
    /// The generic parameters, in declaration order.
    pub params: Vec<ParamDef>,
    /// The predicates of the declaration's where clause.
    pub where_predicates: Vec<String>,
}

/// The storage of a shape submitted to the generator.
#[derive(Debug)]
pub enum ShapeData {
    /// A composite: one run of members, the last of which may be of
    /// unknown size.
    Composite(Vec<FieldDef>),
    /// A tagged union: every variant has a statically known layout.
    TaggedUnion,
    /// An untagged union: never dynamically sized.
    UntaggedUnion,
}

/// The description of a shape submitted to the generator.
#[derive(Debug)]
pub struct ShapeDef {
    /// The shape's name.
    pub ident: String,
    /// The shape's generic parameters and constraints.
    pub generics: GenericsDef,
    /// The attributes on the shape's declaration.
    pub attrs: Vec<AttrDef>,
    /// The shape's storage.
    pub data: ShapeData,
}

/// The description of a dispatch contract submitted to the generator.
#[derive(Debug)]
pub struct TraitDef {
    /// The contract's name.
    pub ident: String,
    /// The contract's generic parameters and constraints.
    pub generics: GenericsDef,
}

/// The metadata type a generated association assigns.
#[derive(Debug)]
pub enum MetadataExpr {
    /// The metadata of the trailing member's shape, named by its type text.
    OfTail(String),
    /// The dispatch-table handle parameterized by the contract itself.
    DynHandle,
}

/// A generated association: the build-time declaration binding one shape or
/// contract to its metadata type.
#[derive(Debug)]
pub struct Association {
    /// The location the library is imported from in the emitted text.
    pub crate_path: String,
    /// The name of the shape or contract the association is for.
    pub ident: String,
    /// The generic parameters propagated from the input declaration.
    pub params: Vec<ParamDef>,
    /// The where-clause predicates of the emitted declaration; for a
    /// composite, the requirement that the trailing member's shape carry
    /// its own association stands at the end.
    pub where_predicates: Vec<String>,
    /// The metadata type the association assigns.
    pub metadata: MetadataExpr,
}

/// The location an association imports the library from: the alternate
/// location recorded from the attributes, or the default.
pub open spec fn located(path_opt: Option<Seq<char>>) -> Seq<char> {
    match path_opt {
        Some(p) => p,
        None => "::ptr_meta"@,
    }
}

/// The predicate requiring a trailing member's shape to carry its own
/// association.
pub open spec fn pointee_bound_spec(ty: Seq<char>, path: Seq<char>) -> Seq<char> {
    ty + ": "@ + path + "::Pointee"@
}

/// A generic parameter as it stands in the heading of the emitted
/// declaration: its name, with its own bounds kept.
pub open spec fn impl_param_view(p: ParamDef) -> Seq<char> {
    match p.bounds {
        Some(b) => p.name@ + ": "@ + b@,
        None => p.name@,
    }
}

/// A generic parameter as it stands in a use of the declared type: its name
/// alone.
pub open spec fn ty_param_view(p: ParamDef) -> Seq<char> {
    p.name@
}

/// A run of texts joined by a separator.
pub open spec fn join_spec(parts: Seq<Seq<char>>, sep: Seq<char>) -> Seq<char>
    decreases parts.len(),
{
    if parts.len() == 0 {
        Seq::<char>::empty()
    } else if parts.len() == 1 {
        parts[0]
    } else {
        join_spec(parts.drop_last(), sep) + sep + parts.last()
    }
}

/// Joins texts with a separator.
fn join(parts: &Vec<String>, sep: &str) -> (r: String)
    ensures
        r@ == join_spec(parts.deep_view(), sep@),
{
    let mut r = String::new();
    let n = parts.len();
    let mut i: usize = 0;
    while i < n
        invariant
            i <= n,
            n == parts@.len(),
            r@ == join_spec(parts.deep_view().subrange(0, i as int), sep@),
        decreases n - i,
    {
        if i > 0 {
            r.append(sep);
        }
        r.append(parts[i].as_str());
        proof {
            let dv = parts.deep_view();
            assert(dv.subrange(0, i + 1).drop_last() =~= dv.subrange(0, i as int));
            assert(dv.subrange(0, i + 1).last() == dv[i as int]);
        }
        i = i + 1;
    }
    proof {
        assert(parts.deep_view().subrange(0, n as int) =~= parts.deep_view());
    }
    r
}

/// Joins generic parameters, each with its own bounds, with a separator.
fn join_impl_params(params: &Vec<ParamDef>, sep: &str) -> (r: String)
    ensures
        r@ == join_spec(params@.map_values(|p: ParamDef| impl_param_view(p)), sep@),
{
    let ghost mapped = params@.map_values(|p: ParamDef| impl_param_view(p));
    let mut r = String::new();
    let n = params.len();
    let mut i: usize = 0;
    while i < n
        invariant
            i <= n,
            n == params@.len(),
            mapped == params@.map_values(|p: ParamDef| impl_param_view(p)),
            r@ == join_spec(mapped.subrange(0, i as int), sep@),
        decreases n - i,
    {
        if i > 0 {
            r.append(sep);
        }
        r.append(params[i].name.as_str());
        match &params[i].bounds {
            Some(b) => {
                r.append(": ");
                r.append(b.as_str());
            },
            None => {
            },
        }
        proof {
            assert(mapped[i as int] == impl_param_view(params@[i as int]));
            assert(mapped.subrange(0, i + 1).drop_last() =~= mapped.subrange(0, i as int));
            assert(mapped.subrange(0, i + 1).last() == mapped[i as int]);
        }
        i = i + 1;
    }
    proof {
        assert(mapped.subrange(0, n as int) =~= mapped);
    }
    r
}

/// Joins generic parameters, names alone, with a separator.
fn join_ty_params(params: &Vec<ParamDef>, sep: &str) -> (r: String)
    ensures
        r@ == join_spec(params@.map_values(|p: ParamDef| ty_param_view(p)), sep@),
{
    let ghost mapped = params@.map_values(|p: ParamDef| ty_param_view(p));
    let mut r = String::new();
    let n = params.len();
    let mut i: usize = 0;
    while i < n
        invariant
            i <= n,
            n == params@.len(),
            mapped == params@.map_values(|p: ParamDef| ty_param_view(p)),
            r@ == join_spec(mapped.subrange(0, i as int), sep@),
        decreases n - i,
    {
        if i > 0 {
            r.append(sep);
        }
        r.append(params[i].name.as_str());
        proof {
            assert(mapped[i as int] == ty_param_view(params@[i as int]));
            assert(mapped.subrange(0, i + 1).drop_last() =~= mapped.subrange(0, i as int));
            assert(mapped.subrange(0, i + 1).last() == mapped[i as int]);
        }
        i = i + 1;
    }
    proof {
        assert(mapped.subrange(0, n as int) =~= mapped);
    }
    r
}

/// Builds the predicate requiring `ty`'s shape to carry an association
/// available at `path`.
fn make_pointee_bound(ty: &String, path: &String) -> (b: String)
    ensures
        b@ == pointee_bound_spec(ty@, path@),
{
    let mut b = ty.clone();
    b.append(": ");
    b.append(path.as_str());
    b.append("::Pointee");
    proof {
        assert(b@ =~= pointee_bound_spec(ty@, path@));
    }
    b
}

/// Synthesizes the association for a composite shape.
///
/// The shape's attributes are read first; a diagnostic there is final. A
/// tagged union, an untagged union or a composite with no members is then
/// rejected. Otherwise the association binds the composite to its trailing
/// member's metadata type, propagates the composite's generic parameters
/// and constraints, and requires the trailing member's shape to carry its
/// own association.
pub fn derive_pointee_impl(shape: ShapeDef) -> (r: Result<Association, Diagnostic>)
    ensures
        match parse_spec(shape.attrs@) {
            Err(e) => r == Err::<Association, Diagnostic>(e),
            Ok(path_opt) => match shape.data {
                ShapeData::TaggedUnion => r == Err::<Association, Diagnostic>(
                    Diagnostic::TaggedUnion,
                ),
                ShapeData::UntaggedUnion => r == Err::<Association, Diagnostic>(
                    Diagnostic::UntaggedUnion,
                ),
                ShapeData::Composite(fields) => if fields@.len() == 0 {
                    r == Err::<Association, Diagnostic>(Diagnostic::Fieldless)
                } else {
                    r matches Ok(a) && ({
                        let tail = fields@[fields@.len() - 1].ty;
                        &&& a.crate_path@ == located(path_opt)
                        &&& a.ident == shape.ident
                        &&& a.params == shape.generics.params
                        &&& a.where_predicates@.len() == shape.generics.where_predicates@.len()
                            + 1
                        &&& a.where_predicates@.subrange(
                            0,
                            shape.generics.where_predicates@.len() as int,
                        ) == shape.generics.where_predicates@
                        &&& a.where_predicates@[shape.generics.where_predicates@.len() as int]@
                            == pointee_bound_spec(tail@, a.crate_path@)
                        &&& a.metadata matches MetadataExpr::OfTail(t) && t == tail
                    })
                },
            },
        },
{
    let ShapeDef { ident, generics, attrs, data } = shape;
    let attributes = match Attributes::parse(&attrs) {
        Ok(a) => a,
        Err(e) => {
            return Err(e);
        },
    };
    let crate_path = attributes.crate_path();
    let mut fields = match data {
        ShapeData::Composite(fields) => fields,
        ShapeData::TaggedUnion => {
            return Err(Diagnostic::TaggedUnion);
        },
        ShapeData::UntaggedUnion => {
            return Err(Diagnostic::UntaggedUnion);
        },
    };
    let last_field = match fields.pop() {
        Some(f) => f,
        None => {
            return Err(Diagnostic::Fieldless);
        },
    };
    let last_field_ty = last_field.ty;
    let bound = make_pointee_bound(&last_field_ty, &crate_path);
    let GenericsDef { params, where_predicates } = generics;
    let mut where_predicates = where_predicates;
    let ghost given_predicates = where_predicates@;
    where_predicates.push(bound);
    proof {
        assert(where_predicates@.subrange(0, given_predicates.len() as int)
            =~= given_predicates);
    }
    Ok(
        Association {
            crate_path,
            ident,
            params,
            where_predicates,
            metadata: MetadataExpr::OfTail(last_field_ty),
        },
    )
}

/// Synthesizes the association for a dispatch contract: the metadata type
/// of a dynamically dispatched value conforming to exactly this contract is
/// the dispatch-table handle parameterized by the contract itself. The
/// contract's generic parameters and constraints are propagated unchanged;
/// this never fails.
pub fn pointee_impl(attributes: Attributes, item: TraitDef) -> (r: Result<Association, Diagnostic>)
    ensures
        r matches Ok(a) && ({
            &&& a.crate_path@ == attributes.crate_path_spec()
            &&& a.ident == item.ident
            &&& a.params == item.generics.params
            &&& a.where_predicates == item.generics.where_predicates
            &&& a.metadata is DynHandle
        }),
{
    let crate_path = attributes.crate_path();
    let TraitDef { ident, generics } = item;
    let GenericsDef { params, where_predicates } = generics;
    Ok(Association { crate_path, ident, params, where_predicates, metadata: MetadataExpr::DynHandle })
}

impl Association {
    /// The angle-bracketed parameter list of the declaration heading, with
    /// each parameter's own bounds; empty when there are no parameters.
    pub open spec fn impl_generics_spec(&self) -> Seq<char> {
        if self.params@.len() == 0 {
            Seq::<char>::empty()
        } else {
            "<"@ + join_spec(self.params@.map_values(|p: ParamDef| impl_param_view(p)), ", "@)
                + ">"@
        }
    }

    /// The angle-bracketed parameter list of a use of the declared type,
    /// names alone; empty when there are no parameters.
    pub open spec fn ty_generics_spec(&self) -> Seq<char> {
        if self.params@.len() == 0 {
            Seq::<char>::empty()
        } else {
            "<"@ + join_spec(self.params@.map_values(|p: ParamDef| ty_param_view(p)), ", "@)
                + ">"@
        }
    }

    /// The where clause, empty when there are no predicates.
    pub open spec fn where_spec(&self) -> Seq<char> {
        if self.where_predicates@.len() == 0 {
            Seq::<char>::empty()
        } else {
            " where "@ + join_spec(self.where_predicates.deep_view(), ", "@)
        }
    }

    /// The type the association is declared for: the composite itself, or
    /// the dynamically dispatched form of the contract.
    pub open spec fn target_spec(&self) -> Seq<char> {
        match self.metadata {
            MetadataExpr::OfTail(_) => self.ident@ + self.ty_generics_spec(),
            MetadataExpr::DynHandle => "(dyn "@ + self.ident@ + self.ty_generics_spec()
                + " + '_)"@,
        }
    }

    /// The metadata type the association assigns, as text.
    pub open spec fn metadata_ty_spec(&self) -> Seq<char> {
        match self.metadata {
            MetadataExpr::OfTail(t) => "<"@ + t@ + " as "@ + self.crate_path@
                + "::Pointee>::Metadata"@,
            MetadataExpr::DynHandle => self.crate_path@ + "::DynMetadata<Self>"@,
        }
    }

    /// The emitted declaration, in full.
    pub open spec fn render_spec(&self) -> Seq<char> {
        "impl"@ + self.impl_generics_spec() + " "@ + self.crate_path@ + "::Pointee for "@
            + self.target_spec() + self.where_spec() + " { type Metadata = "@
            + self.metadata_ty_spec() + "; }"@
    }

    /// Builds the angle-bracketed parameter list of the declaration
    /// heading.
    fn impl_generics_text(&self) -> (g: String)
        ensures
            g@ == self.impl_generics_spec(),
    {
        if self.params.len() == 0 {
            String::new()
        } else {
            let mut g: String = "<".to_owned();
            let joined = join_impl_params(&self.params, ", ");
            g.append(joined.as_str());
            g.append(">");
            proof {
                assert(g@ =~= self.impl_generics_spec());
            }
            g
        }
    }

    /// Builds the angle-bracketed parameter list of a use of the declared
    /// type.
    fn ty_generics_text(&self) -> (g: String)
        ensures
            g@ == self.ty_generics_spec(),
    {
        if self.params.len() == 0 {
            String::new()
        } else {
            let mut g: String = "<".to_owned();
            let joined = join_ty_params(&self.params, ", ");
            g.append(joined.as_str());
            g.append(">");
            proof {
                assert(g@ =~= self.ty_generics_spec());
            }
            g
        }
    }

    /// Emits the association as a standard top-level declaration, to stand
    /// in the same compilation unit as its input.
    pub fn render(&self) -> (r: String)
        ensures
            r@ == self.render_spec(),
    {
        let g = self.impl_generics_text();
        let mut r: String = "impl".to_owned();
        r.append(g.as_str());
        r.append(" ");
        r.append(self.crate_path.as_str());
        r.append("::Pointee for ");
        match &self.metadata {
            MetadataExpr::OfTail(_) => {
                r.append(self.ident.as_str());
                let g2 = self.ty_generics_text();
                r.append(g2.as_str());
            },
            MetadataExpr::DynHandle => {
                r.append("(dyn ");
                r.append(self.ident.as_str());
                let g2 = self.ty_generics_text();
                r.append(g2.as_str());
                r.append(" + '_)");
            },
        }
        if self.where_predicates.len() > 0 {
            r.append(" where ");
            let joined = join(&self.where_predicates, ", ");
            r.append(joined.as_str());
        }
        r.append(" { type Metadata = ");
        match &self.metadata {
            MetadataExpr::OfTail(t) => {
                r.append("<");
                r.append(t.as_str());
                r.append(" as ");
                r.append(self.crate_path.as_str());
                r.append("::Pointee>::Metadata");
            },
            MetadataExpr::DynHandle => {
                r.append(self.crate_path.as_str());
                r.append("::DynMetadata<Self>");
            },
        }
        r.append("; }");
        proof {
            assert(r@ =~= self.render_spec());
        }
        r
    }
}

} // verus!

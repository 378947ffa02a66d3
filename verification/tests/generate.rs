use core::marker::PhantomData;

use ptr_meta::attributes::{AttrDef, Attributes, MetaItem, MetaValue};
use ptr_meta::diagnostic::Diagnostic;
use ptr_meta::generate::{
    derive_pointee_impl, pointee_impl, FieldDef, GenericsDef, MetadataExpr, ParamDef, ShapeData,
    ShapeDef, TraitDef,
};
use ptr_meta::impls::DynRef;
use ptr_meta::test_pointee;
use ptr_meta::vtable::TableRegistry;

fn plain_generics() -> GenericsDef {
    GenericsDef { params: Vec::new(), where_predicates: Vec::new() }
}

fn crate_attr() -> Vec<AttrDef> {
    vec![AttrDef {
        outer: true,
        path: "ptr_meta".to_string(),
        items: vec![MetaItem { name: "crate".to_string(), value: MetaValue::Bare }],
    }]
}

fn field(name: &str, ty: &str) -> FieldDef {
    FieldDef { name: Some(name.to_string()), ty: ty.to_string() }
}

fn param(name: &str) -> ParamDef {
    ParamDef { name: name.to_string(), bounds: None }
}

#[test]
fn last_field_dst() {
    // struct Test<H, T> { head: H, tail: [T] }
    let shape = ShapeDef {
        ident: "Test".to_string(),
        generics: GenericsDef { params: vec![param("H"), param("T")], where_predicates: Vec::new() },
        attrs: crate_attr(),
        data: ShapeData::Composite(vec![field("head", "H"), field("tail", "[T]")]),
    };
    let assoc = derive_pointee_impl(shape).unwrap();
    assert_eq!(assoc.crate_path, "crate");
    assert_eq!(assoc.ident, "Test");
    assert_eq!(assoc.params.len(), 2);
    assert_eq!(assoc.params[0].name, "H");
    assert_eq!(assoc.params[1].name, "T");
    assert_eq!(assoc.where_predicates, vec!["[T]: crate::Pointee".to_string()]);
    assert!(matches!(&assoc.metadata, MetadataExpr::OfTail(t) if t == "[T]"));
    assert_eq!(
        assoc.render(),
        "impl<H, T> crate::Pointee for Test<H, T> where [T]: crate::Pointee \
         { type Metadata = <[T] as crate::Pointee>::Metadata; }"
    );

    // struct TestDyn { tail: dyn Any }
    let shape = ShapeDef {
        ident: "TestDyn".to_string(),
        generics: plain_generics(),
        attrs: crate_attr(),
        data: ShapeData::Composite(vec![field("tail", "dyn Any")]),
    };
    let assoc = derive_pointee_impl(shape).unwrap();
    assert_eq!(assoc.where_predicates, vec!["dyn Any: crate::Pointee".to_string()]);
    assert!(matches!(&assoc.metadata, MetadataExpr::OfTail(t) if t == "dyn Any"));

    // trait TestTrait {} under the contract generator, then a composite
    // whose tail is that contract's dynamically dispatched form.
    let attributes = Attributes { crate_path: Some("crate".to_string()) };
    let contract = pointee_impl(
        attributes,
        TraitDef { ident: "TestTrait".to_string(), generics: plain_generics() },
    )
    .unwrap();
    assert_eq!(
        contract.render(),
        "impl crate::Pointee for (dyn TestTrait + '_) \
         { type Metadata = crate::DynMetadata<Self>; }"
    );

    let shape = ShapeDef {
        ident: "TestCustomDyn".to_string(),
        generics: plain_generics(),
        attrs: crate_attr(),
        data: ShapeData::Composite(vec![field("tail", "dyn TestTrait")]),
    };
    let assoc = derive_pointee_impl(shape).unwrap();
    assert!(matches!(&assoc.metadata, MetadataExpr::OfTail(t) if t == "dyn TestTrait"));
}

/// The dispatch contract of the `generic_trait` scenario, instantiated at
/// one element type.
#[derive(Debug)]
struct TestTraitU32;

#[test]
fn generic_trait() {
    // trait TestTrait<T: ?Sized> {}
    let attributes = Attributes { crate_path: Some("crate".to_string()) };
    let contract = pointee_impl(
        attributes,
        TraitDef {
            ident: "TestTrait".to_string(),
            generics: GenericsDef {
                params: vec![ParamDef { name: "T".to_string(), bounds: Some("?Sized".to_string()) }],
                where_predicates: Vec::new(),
            },
        },
    )
    .unwrap();
    assert_eq!(contract.ident, "TestTrait");
    assert_eq!(contract.params.len(), 1);
    assert_eq!(contract.params[0].name, "T");
    assert_eq!(contract.params[0].bounds.as_deref(), Some("?Sized"));
    assert!(matches!(contract.metadata, MetadataExpr::DynHandle));
    assert_eq!(
        contract.render(),
        "impl<T: ?Sized> crate::Pointee for (dyn TestTrait<T> + '_) \
         { type Metadata = crate::DynMetadata<Self>; }"
    );

    // A dynamically dispatched reference under that contract round-trips.
    let mut tables: TableRegistry<TestTraitU32> = TableRegistry::new();
    let meta = tables.register(0x10, 0, 1, Vec::new());
    let trait_object = DynRef { addr: 0x8000, meta };
    let rebuilt = test_pointee(&trait_object);
    assert!(rebuilt == trait_object);
    let _ = PhantomData::<u32>;
}

#[test]
fn rejects_fieldless() {
    let shape = ShapeDef {
        ident: "Empty".to_string(),
        generics: plain_generics(),
        attrs: Vec::new(),
        data: ShapeData::Composite(Vec::new()),
    };
    let diagnostic = derive_pointee_impl(shape).unwrap_err();
    assert_eq!(diagnostic, Diagnostic::Fieldless);
    assert_eq!(
        diagnostic.message(),
        "fieldless structs always have a provided `Pointee` impl because they cannot be dynamically-sized"
    );
}

#[test]
fn rejects_tagged_union() {
    let shape = ShapeDef {
        ident: "Choice".to_string(),
        generics: plain_generics(),
        attrs: Vec::new(),
        data: ShapeData::TaggedUnion,
    };
    let diagnostic = derive_pointee_impl(shape).unwrap_err();
    assert_eq!(diagnostic, Diagnostic::TaggedUnion);
    assert_eq!(
        diagnostic.message(),
        "enums always have a provided `Pointee` impl because they cannot be dynamically-sized"
    );
}

#[test]
fn rejects_untagged_union() {
    let shape = ShapeDef {
        ident: "Raw".to_string(),
        generics: plain_generics(),
        attrs: Vec::new(),
        data: ShapeData::UntaggedUnion,
    };
    let diagnostic = derive_pointee_impl(shape).unwrap_err();
    assert_eq!(diagnostic, Diagnostic::UntaggedUnion);
}

#[test]
fn attribute_options() {
    // No attributes: the default location.
    let attributes = Attributes::parse(&Vec::new()).unwrap();
    assert_eq!(attributes.crate_path, None);
    assert_eq!(attributes.crate_path(), "::ptr_meta");

    // crate = my_path
    let attrs = vec![AttrDef {
        outer: true,
        path: "ptr_meta".to_string(),
        items: vec![MetaItem {
            name: "crate".to_string(),
            value: MetaValue::Assign("my_path".to_string()),
        }],
    }];
    let attributes = Attributes::parse(&attrs).unwrap();
    assert_eq!(attributes.crate_path, Some("my_path".to_string()));
    assert_eq!(attributes.crate_path(), "my_path");

    // A bare `crate` records the enclosing crate itself.
    let attributes = Attributes::parse(&crate_attr()).unwrap();
    assert_eq!(attributes.crate_path(), "crate");

    // Attributes that are not the library's are passed over.
    let attrs = vec![
        AttrDef { outer: false, path: "ptr_meta".to_string(), items: Vec::new() },
        AttrDef {
            outer: true,
            path: "derive".to_string(),
            items: vec![MetaItem { name: "Clone".to_string(), value: MetaValue::Bare }],
        },
    ];
    let attributes = Attributes::parse(&attrs).unwrap();
    assert_eq!(attributes.crate_path, None);
}

#[test]
fn attribute_diagnostics() {
    // The location given twice.
    let attrs = vec![AttrDef {
        outer: true,
        path: "ptr_meta".to_string(),
        items: vec![
            MetaItem { name: "crate".to_string(), value: MetaValue::Bare },
            MetaItem {
                name: "crate".to_string(),
                value: MetaValue::Assign("elsewhere".to_string()),
            },
        ],
    }];
    assert_eq!(Attributes::parse(&attrs).unwrap_err(), Diagnostic::AlreadySpecified);

    // A malformed value.
    let attrs = vec![AttrDef {
        outer: true,
        path: "ptr_meta".to_string(),
        items: vec![MetaItem { name: "crate".to_string(), value: MetaValue::Malformed }],
    }];
    let diagnostic = Attributes::parse(&attrs).unwrap_err();
    assert_eq!(diagnostic, Diagnostic::ExpectedCrateArg);
    assert_eq!(diagnostic.message(), "expected `crate` or `crate = ...`");

    // An unrecognized option name.
    let attrs = vec![AttrDef {
        outer: true,
        path: "ptr_meta".to_string(),
        items: vec![MetaItem { name: "module".to_string(), value: MetaValue::Bare }],
    }];
    let diagnostic = Attributes::parse(&attrs).unwrap_err();
    assert_eq!(diagnostic, Diagnostic::UnrecognizedOption);
    assert_eq!(diagnostic.message(), "unrecognized ptr_meta argument");

    // A diagnostic from the attributes is final, field list notwithstanding.
    let shape = ShapeDef {
        ident: "Test".to_string(),
        generics: plain_generics(),
        attrs: vec![AttrDef {
            outer: true,
            path: "ptr_meta".to_string(),
            items: vec![MetaItem { name: "module".to_string(), value: MetaValue::Bare }],
        }],
        data: ShapeData::Composite(vec![field("tail", "[u8]")]),
    };
    assert_eq!(derive_pointee_impl(shape).unwrap_err(), Diagnostic::UnrecognizedOption);
}

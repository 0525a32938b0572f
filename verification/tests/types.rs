use cel_cxx::{
    EnumType, FunctionType, InvalidMapKeyType, Kind, ListType, MapKeyType, MapType, OpaqueType,
    OptionalType, StructType, TypeParamType, TypeType, ValueType,
};

#[test]
fn kinds_of_types() {
    assert_eq!(ValueType::Int.kind(), Kind::Int);
    assert_eq!(ValueType::String.kind(), Kind::String);
    assert_eq!(ValueType::Bool.kind(), Kind::Bool);
    assert_eq!(ValueType::List(ListType::new(ValueType::Int)).kind(), Kind::List);
    let map_type = ValueType::Mapping(MapType::new(MapKeyType::String, ValueType::Int));
    assert_eq!(map_type.kind(), Kind::Mapping);
    assert_eq!(ValueType::Optional(OptionalType::new(ValueType::Int)).kind(), Kind::Opaque);
    assert_eq!(ValueType::Opaque(OpaqueType::new("MyType", vec![])).kind(), Kind::Opaque);
    assert_eq!(ValueType::BoolWrapper.kind(), Kind::BoolWrapper);
    assert_eq!(ValueType::Function(FunctionType::new(ValueType::Int, vec![])).kind(), Kind::Function);
    assert_eq!(MapKeyType::String.kind(), Kind::String);
    assert_eq!(MapKeyType::Int.kind(), Kind::Int);
    assert_eq!(MapKeyType::Bool.kind(), Kind::Bool);
    assert_eq!(MapKeyType::TypeParam(TypeParamType::new("K")).kind(), Kind::TypeParam);
}

#[test]
fn constructors_and_getters() {
    let list_type = ListType::new(ValueType::String);
    assert_eq!(list_type.element(), &ValueType::String);
    let map_type = MapType::new(MapKeyType::String, ValueType::Int);
    assert_eq!(map_type.key(), &MapKeyType::String);
    assert_eq!(map_type.value(), &ValueType::Int);
    let type_type = TypeType::new(Some(ValueType::Int));
    assert_eq!(type_type.parameter(), Some(&ValueType::Int));
    assert_eq!(TypeType::new(None).parameter(), None);
    let opaque = OpaqueType::new("Container", vec![ValueType::Int, ValueType::String]);
    assert_eq!(opaque.name(), "Container");
    assert_eq!(opaque.parameters().len(), 2);
    let optional = OptionalType::new(ValueType::String);
    assert_eq!(optional.parameter(), &ValueType::String);
    let tp = TypeParamType::new("T");
    assert_eq!(tp.name(), "T");
    let func = FunctionType::new(ValueType::Bool, vec![ValueType::String]);
    assert_eq!(func.result(), &ValueType::Bool);
    assert_eq!(func.arguments().len(), 1);
    let e = EnumType::new("my.Status");
    assert_eq!(e.name(), "my.Status");
    assert_eq!(StructType::new("google.protobuf.Duration").name, "google.protobuf.Duration");
}

#[test]
fn display_of_types() {
    assert_eq!(ValueType::Int.to_string(), "int");
    assert_eq!(ValueType::Null.to_string(), "null_type");
    assert_eq!(ValueType::Duration.to_string(), "duration");
    assert_eq!(ValueType::StringWrapper.to_string(), "google.protobuf.StringValue");
    assert_eq!(ValueType::List(ListType::new(ValueType::String)).to_string(), "list<string>");
    let nested = ValueType::List(ListType::new(ValueType::Mapping(MapType::new(
        MapKeyType::String,
        ValueType::Int,
    ))));
    assert_eq!(nested.to_string(), "list<map<string, int>>");
    assert_eq!(ValueType::Type(TypeType::new(None)).to_string(), "type");
    assert_eq!(ValueType::Type(TypeType::new(Some(ValueType::String))).to_string(), "type<string>");
    assert_eq!(ValueType::Opaque(OpaqueType::new("MyType", vec![])).to_string(), "MyType");
    assert_eq!(
        ValueType::Opaque(OpaqueType::new("MyGeneric", vec![ValueType::String, ValueType::Int])).to_string(),
        "MyGeneric<string, int>"
    );
    assert_eq!(
        ValueType::Optional(OptionalType::new(ValueType::List(ListType::new(ValueType::Int)))).to_string(),
        "optional<list<int>>"
    );
    assert_eq!(
        ValueType::Function(FunctionType::new(ValueType::Bool, vec![ValueType::String, ValueType::Int])).to_string(),
        "(string, int) -> bool"
    );
    assert_eq!(ValueType::Function(FunctionType::new(ValueType::String, vec![])).to_string(), "() -> string");
    assert_eq!(ValueType::Enum(EnumType::new("google.rpc.Code")).to_string(), "google.rpc.Code");
    assert_eq!(ValueType::TypeParam(TypeParamType::new("T")).to_string(), "T");
    assert_eq!(MapKeyType::TypeParam(TypeParamType::new("K")).to_string(), "K");
    assert_eq!(MapType::new(MapKeyType::Dyn, ValueType::Bytes).to_string(), "map<dyn, bytes>");
    assert_eq!(ListType::new(ValueType::Uint).to_string(), "list<uint>");
    assert_eq!(OptionalType::new(ValueType::Double).to_string(), "optional<double>");
    assert_eq!(TypeType::new(Some(ValueType::Dyn)).to_string(), "type<dyn>");
    assert_eq!(OpaqueType::new("Box", vec![ValueType::Any]).to_string(), "Box<any>");
    assert_eq!(Kind::Mapping.to_string(), "map");
    assert_eq!(Kind::Opaque.name(), "*opaque*");
}

#[test]
fn function_type_ids() {
    let func_type = FunctionType::new(ValueType::Int, vec![ValueType::String]);
    assert_eq!(func_type.id("myFunc", false), "myFunc(string)");
    let member = FunctionType::new(ValueType::Int, vec![ValueType::String, ValueType::Int, ValueType::Bool]);
    assert_eq!(member.id("size", true), "(string).size(int, bool)");
    assert_eq!(member.id("size", false), "size(string, int, bool)");
    let nullary = FunctionType::new(ValueType::Int, vec![]);
    assert_eq!(nullary.id("now", true), "now()");
    let one = FunctionType::new(ValueType::Int, vec![ValueType::List(ListType::new(ValueType::Int))]);
    assert_eq!(one.id("len", true), "(list<int>).len()");
}

#[test]
fn equality_and_clone() {
    let a = ValueType::Opaque(OpaqueType::new("C", vec![ValueType::Int, ValueType::List(ListType::new(ValueType::Bool))]));
    let b = a.clone();
    assert_eq!(a, b);
    assert!(a.equals(&b));
    let c = ValueType::Opaque(OpaqueType::new("C", vec![ValueType::Int]));
    assert_ne!(a, c);
    let d = ValueType::Opaque(OpaqueType::new("D", vec![ValueType::Int, ValueType::List(ListType::new(ValueType::Bool))]));
    assert_ne!(a, d);
    assert_ne!(ValueType::Int, ValueType::Uint);
    assert_eq!(
        ValueType::Function(FunctionType::new(ValueType::Int, vec![ValueType::String])),
        ValueType::Function(FunctionType::new(ValueType::Int, vec![ValueType::String]))
    );
    assert_ne!(
        ValueType::Function(FunctionType::new(ValueType::Int, vec![ValueType::String])),
        ValueType::Function(FunctionType::new(ValueType::Uint, vec![ValueType::String]))
    );
    assert_eq!(MapKeyType::TypeParam(TypeParamType::new("K")), MapKeyType::TypeParam(TypeParamType::new("K")));
    assert_ne!(MapKeyType::TypeParam(TypeParamType::new("K")), MapKeyType::TypeParam(TypeParamType::new("V")));
    assert_eq!(TypeType::new(None), TypeType::new(None));
    assert_ne!(TypeType::new(None), TypeType::new(Some(ValueType::Int)));
}

#[test]
fn is_typed_value() {
    assert!(ValueType::Int.is::<i64>());
    assert!(ValueType::String.is::<String>());
    assert!(ValueType::Bool.is::<bool>());
    assert!(!ValueType::Int.is::<String>());
    assert!(!ValueType::String.is::<bool>());
    let optional_string = ValueType::Optional(OptionalType::new(ValueType::String));
    assert!(optional_string.is::<Option<String>>());
    assert!(!optional_string.is::<Option<i64>>());
    assert!(!optional_string.is::<String>());
}

#[test]
fn map_key_conversions() {
    let key = MapKeyType::try_from(ValueType::String).unwrap();
    assert_eq!(key, MapKeyType::String);
    let list_type = ValueType::List(ListType::new(ValueType::Int));
    let err = MapKeyType::try_from(list_type.clone()).unwrap_err();
    assert_eq!(err.0, list_type);
    assert_eq!(err.to_string(), "invalid key type: list<int>");
    assert!(MapKeyType::try_from(ValueType::Double).is_err());
    assert_eq!(MapKeyType::try_from(ValueType::Dyn).unwrap(), MapKeyType::Dyn);
    let tp = MapKeyType::TypeParam(TypeParamType::new("K"));
    let back = ValueType::from(tp.clone());
    assert_eq!(back, ValueType::TypeParam(TypeParamType::new("K")));
    assert_eq!(MapKeyType::try_from(back).unwrap(), tp);
    assert_eq!(InvalidMapKeyType::new(ValueType::Null).0, ValueType::Null);
}

#[test]
fn law_map_key_round_trip_examples() {
    for key in [MapKeyType::Bool, MapKeyType::Int, MapKeyType::Uint, MapKeyType::String, MapKeyType::Dyn] {
        let t = ValueType::from(key.clone());
        assert_eq!(t.kind(), key.kind());
        assert_eq!(t.to_string(), key.to_string());
        assert_eq!(MapKeyType::try_from(t).unwrap(), key);
    }
}

#[test]
fn from_structure_types() {
    assert_eq!(ValueType::from(StructType::new("a.B")), ValueType::Struct(StructType::new("a.B")));
    assert_eq!(ValueType::from(ListType::new(ValueType::Int)).kind(), Kind::List);
    assert_eq!(ValueType::from(MapType::new(MapKeyType::Int, ValueType::Int)).kind(), Kind::Mapping);
    assert_eq!(ValueType::from(TypeType::new(None)).kind(), Kind::Type);
    assert_eq!(ValueType::from(OpaqueType::new("X", vec![])).kind(), Kind::Opaque);
    assert_eq!(ValueType::from(OptionalType::new(ValueType::Int)).kind(), Kind::Opaque);
    assert_eq!(ValueType::from(TypeParamType::new("T")).kind(), Kind::TypeParam);
    assert_eq!(ValueType::from(FunctionType::new(ValueType::Int, vec![])).kind(), Kind::Function);
    assert_eq!(ValueType::from(EnumType::new("E")).kind(), Kind::Enum);
}

#[test]
fn is_for_collections_and_bytes() {
    let list_type = ValueType::List(ListType::new(ValueType::Int));
    let map_type = ValueType::Mapping(MapType::new(MapKeyType::String, ValueType::Int));
    assert!(list_type.is::<Vec<i64>>());
    assert!(map_type.is::<std::collections::HashMap<String, i64>>());
    assert!(!list_type.is::<Vec<String>>());
    assert!(!map_type.is::<std::collections::HashMap<i64, String>>());
    let optional_string = ValueType::Optional(OptionalType::new(ValueType::String));
    assert!(optional_string.is::<Option<String>>());
    assert!(!optional_string.is::<Option<i64>>());
    assert!(!optional_string.is::<String>());
    assert!(ValueType::Bytes.is::<Vec<u8>>());
    assert!(ValueType::Bytes.is::<&[u8]>());
    let nested = ValueType::Mapping(MapType::new(
        MapKeyType::Uint,
        ValueType::List(ListType::new(ValueType::List(ListType::new(ValueType::Int)))),
    ));
    assert!(nested.is::<std::collections::HashMap<u64, Vec<Vec<i64>>>>());
}

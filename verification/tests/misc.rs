use cel_cxx::{CompilerLibrary, EnvInnerOptions, EvalDispatcher, RuntimeExtension};

#[test]
fn regex_needs_optional() {
    let mut options = EnvInnerOptions::default();
    assert!(options.enable_standard);
    assert!(!options.enable_optional);
    assert_eq!(options.container, "");
    options.check_consistency();
    assert!(!options.enable_optional);
    options.enable_ext_regex = true;
    options.check_consistency();
    assert!(options.enable_optional);
    options.check_consistency();
    assert!(options.enable_optional && options.enable_ext_regex && options.enable_standard);
}

#[test]
fn dispatcher_is_made() {
    let _d: EvalDispatcher<(), ()> = EvalDispatcher::new();
    let _e: EvalDispatcher<(), ()> = Default::default();
}

#[test]
fn libraries_for_options() {
    let mut options = EnvInnerOptions::default();
    assert_eq!(options.compiler_libraries(), vec![CompilerLibrary::Standard]);
    assert_eq!(options.runtime_extensions(), vec![RuntimeExtension::Standard]);
    assert!(!options.qualified_type_identifiers());
    options.enable_ext_regex = true;
    options.enable_ext_bindings = true;
    options.enable_ext_proto = true;
    options.enable_ext_select_optimization = true;
    options.check_consistency();
    assert_eq!(
        options.compiler_libraries(),
        vec![
            CompilerLibrary::Standard,
            CompilerLibrary::Optional,
            CompilerLibrary::Bindings,
            CompilerLibrary::Proto,
            CompilerLibrary::Regex
        ]
    );
    assert_eq!(
        options.runtime_extensions(),
        vec![
            RuntimeExtension::Standard,
            RuntimeExtension::Optional,
            RuntimeExtension::Regex,
            RuntimeExtension::SelectOptimization
        ]
    );
    assert!(options.qualified_type_identifiers());
    options.enable_standard = false;
    options.enable_optional = false;
    options.enable_ext_regex = false;
    options.enable_ext_bindings = false;
    options.enable_ext_proto = false;
    options.enable_ext_select_optimization = false;
    assert_eq!(options.compiler_libraries(), vec![]);
    assert_eq!(options.runtime_extensions(), vec![]);
}

use std::borrow::Cow;
use std::cell::Cell;
use std::path::PathBuf;

use wesl_sourcemap::{Mangler, ResolveError, Resolver, SourceMap, SourceMapper};
use wgsl_parse::syntax::{Ident, ModulePath, PathOrigin, TypeExpression};

fn module(name: &str) -> ModulePath {
    ModulePath::new(PathOrigin::Absolute, vec![name.to_string()])
}

/// Knows a fixed list of modules; counts the calls it gets.
struct Files {
    files: Vec<(ModulePath, Option<String>, String)>,
    resolved: Cell<usize>,
    named: Cell<usize>,
}

impl Files {
    fn new(files: Vec<(ModulePath, Option<String>, String)>) -> Self {
        Files {
            files,
            resolved: Cell::new(0),
            named: Cell::new(0),
        }
    }

    fn main_only() -> Self {
        Files::new(vec![(
            module("main"),
            Some("main.lang".to_string()),
            "fn f(){}".to_string(),
        )])
    }
}

impl Resolver for Files {
    fn resolve_source<'a>(&'a self, path: &ModulePath) -> Result<Cow<'a, str>, ResolveError> {
        self.resolved.set(self.resolved.get() + 1);
        for (module, _, source) in &self.files {
            if module == path {
                return Ok(Cow::Borrowed(source.as_str()));
            }
        }
        Err(ResolveError::ModuleNotFound(
            path.clone(),
            "no such module".to_string(),
        ))
    }

    fn display_name(&self, path: &ModulePath) -> Option<String> {
        self.named.set(self.named.get() + 1);
        for (module, name, _) in &self.files {
            if module == path {
                return name.clone();
            }
        }
        None
    }

    fn fs_path(&self, path: &ModulePath) -> Option<PathBuf> {
        for (module, name, _) in &self.files {
            if module == path {
                return name.as_ref().map(|name| PathBuf::from("/src").join(name));
            }
        }
        None
    }
}

/// Gives a new text at every call, and owns it.
struct Changing {
    calls: Cell<usize>,
}

impl Resolver for Changing {
    fn resolve_source<'a>(&'a self, _path: &ModulePath) -> Result<Cow<'a, str>, ResolveError> {
        self.calls.set(self.calls.get() + 1);
        Ok(Cow::Owned(format!("version {}", self.calls.get())))
    }

    fn display_name(&self, _path: &ModulePath) -> Option<String> {
        Some(format!("name {}", self.calls.get()))
    }

    fn fs_path(&self, _path: &ModulePath) -> Option<PathBuf> {
        None
    }
}

/// Fails every call with the error it was made for.
struct Failing {
    kind: usize,
}

impl Failing {
    fn error(&self, path: &ModulePath) -> ResolveError {
        match self.kind {
            0 => ResolveError::FileNotFound(PathBuf::from("/src/missing.lang"), "gone".to_string()),
            1 => ResolveError::ModuleNotFound(path.clone(), "unknown".to_string()),
            _ => ResolveError::Error("broken".to_string()),
        }
    }
}

impl Resolver for Failing {
    fn resolve_source<'a>(&'a self, path: &ModulePath) -> Result<Cow<'a, str>, ResolveError> {
        Err(self.error(path))
    }

    fn display_name(&self, _path: &ModulePath) -> Option<String> {
        Some("never recorded".to_string())
    }

    fn fs_path(&self, _path: &ModulePath) -> Option<PathBuf> {
        None
    }
}

/// Numbers the names it gives out.
struct Numbering {
    next: Cell<u32>,
}

impl Numbering {
    fn new() -> Self {
        Numbering { next: Cell::new(1) }
    }
}

impl Mangler for Numbering {
    fn mangle(&self, _path: &ModulePath, item: &str) -> String {
        let n = self.next.get();
        self.next.set(n + 1);
        format!("{item}_{n}")
    }

    fn unmangle(&self, mangled: &str) -> Option<(ModulePath, String)> {
        let (item, _) = mangled.rsplit_once('_')?;
        Some((module("unmangled"), item.to_string()))
    }

    fn mangle_types(&self, item: &str, variant: u32, types: &[TypeExpression]) -> String {
        format!("{item}_{variant}_{}", types.len())
    }
}

/// Gives every declaration the same name.
struct Colliding;

impl Mangler for Colliding {
    fn mangle(&self, _path: &ModulePath, _item: &str) -> String {
        "same".to_string()
    }

    fn unmangle(&self, _mangled: &str) -> Option<(ModulePath, String)> {
        None
    }

    fn mangle_types(&self, item: &str, _variant: u32, _types: &[TypeExpression]) -> String {
        item.to_string()
    }
}

#[test]
fn records_what_the_compiler_asks_for() {
    let root = module("main");
    let resolver = Files::main_only();
    let mangler = Numbering::new();
    let mut mapper = SourceMapper::new(&root, &resolver, &mangler);

    let source = mapper.resolve_source(&module("main"));
    assert_eq!(source, Ok(Cow::Borrowed("fn f(){}")));
    let mangled = mapper.mangle(&module("main"), "f");
    assert_eq!(mangled, "f_1");

    let map = mapper.finish();
    let main = module("main");
    assert_eq!(map.get_decl("f_1"), Some((&main, "f")));
    assert_eq!(map.get_source(&main), Some("fn f(){}"));
    assert_eq!(map.get_display_name(&main), Some("main.lang"));
    assert_eq!(map.get_default_source(), Some("fn f(){}"));
}

#[test]
fn failed_resolution_records_nothing() {
    let root = module("main");
    let resolver = Files::main_only();
    let mangler = Numbering::new();
    let mut mapper = SourceMapper::new(&root, &resolver, &mangler);

    let expected = resolver.resolve_source(&module("missing"));
    let res = mapper.resolve_source(&module("missing"));
    assert_eq!(res, expected);
    assert_eq!(
        res,
        Err(ResolveError::ModuleNotFound(
            module("missing"),
            "no such module".to_string()
        ))
    );

    let map = mapper.finish();
    assert_eq!(map.get_source(&module("missing")), None);
    assert_eq!(map.get_display_name(&module("missing")), None);
    assert_eq!(map.get_default_source(), None);
}

#[test]
fn failed_resolution_does_not_ask_for_a_display_name() {
    let root = module("main");
    let resolver = Files::main_only();
    let mangler = Numbering::new();
    let mut mapper = SourceMapper::new(&root, &resolver, &mangler);
    assert!(mapper.resolve_source(&module("missing")).is_err());
    assert_eq!(resolver.resolved.get(), 1);
    assert_eq!(resolver.named.get(), 0);
    assert!(mapper.resolve_source(&module("main")).is_ok());
    assert_eq!(resolver.resolved.get(), 2);
    assert_eq!(resolver.named.get(), 1);
}

#[test]
fn every_error_comes_back_unchanged() {
    let root = module("main");
    let mangler = Numbering::new();
    for kind in 0..3 {
        let resolver = Failing { kind };
        let mut mapper = SourceMapper::new(&root, &resolver, &mangler);
        let res = mapper.resolve_source(&module("main"));
        assert_eq!(res, Err(resolver.error(&module("main"))));
        let map = mapper.finish();
        assert_eq!(map.get_source(&module("main")), None);
        assert_eq!(map.get_display_name(&module("main")), None);
        assert_eq!(map.get_default_source(), None);
    }
}

#[test]
fn file_not_found_is_passed_on() {
    let root = module("main");
    let resolver = Failing { kind: 0 };
    let mangler = Numbering::new();
    let mut mapper = SourceMapper::new(&root, &resolver, &mangler);
    assert_eq!(
        mapper.resolve_source(&module("main")),
        Err(ResolveError::FileNotFound(
            PathBuf::from("/src/missing.lang"),
            "gone".to_string()
        ))
    );
}

#[test]
fn other_error_is_passed_on() {
    let root = module("main");
    let resolver = Failing { kind: 2 };
    let mangler = Numbering::new();
    let mut mapper = SourceMapper::new(&root, &resolver, &mangler);
    assert_eq!(
        mapper.resolve_source(&module("main")),
        Err(ResolveError::Error("broken".to_string()))
    );
}

#[test]
fn new_mapper_has_recorded_nothing() {
    let root = module("main");
    let resolver = Files::main_only();
    let mangler = Numbering::new();
    let mapper = SourceMapper::new(&root, &resolver, &mangler);
    assert_eq!(mapper.root(), &root);
    let map = mapper.finish();
    assert_eq!(map.get_decl("f_1"), None);
    assert_eq!(map.get_source(&root), None);
    assert_eq!(map.get_display_name(&root), None);
    assert_eq!(map.get_default_source(), None);
    assert_eq!(resolver.resolved.get(), 0);
    assert_eq!(resolver.named.get(), 0);
}

#[test]
fn unresolved_root_leaves_no_default() {
    let root = module("main");
    let resolver = Files::new(vec![
        (module("main"), None, "root text".to_string()),
        (module("util"), Some("util.lang".to_string()), "util text".to_string()),
    ]);
    let mangler = Numbering::new();
    let mut mapper = SourceMapper::new(&root, &resolver, &mangler);
    assert_eq!(
        mapper.resolve_source(&module("util")),
        Ok(Cow::Borrowed("util text"))
    );
    assert_eq!(mapper.mangle(&module("main"), "f"), "f_1");
    let map = mapper.finish();
    assert_eq!(map.get_default_source(), None);
    assert_eq!(map.get_source(&module("main")), None);
    assert_eq!(map.get_display_name(&module("main")), None);
    assert_eq!(map.get_source(&module("util")), Some("util text"));
    assert_eq!(map.get_display_name(&module("util")), Some("util.lang"));
    let main = module("main");
    assert_eq!(map.get_decl("f_1"), Some((&main, "f")));
}

#[test]
fn resolved_root_becomes_the_default() {
    let root = module("main");
    let resolver = Files::new(vec![
        (module("main"), None, "root text".to_string()),
        (module("util"), Some("util.lang".to_string()), "util text".to_string()),
    ]);
    let mangler = Numbering::new();
    let mut mapper = SourceMapper::new(&root, &resolver, &mangler);
    assert!(mapper.resolve_source(&module("util")).is_ok());
    assert!(mapper.resolve_source(&module("main")).is_ok());
    let map = mapper.finish();
    assert_eq!(map.get_default_source(), Some("root text"));
    assert_eq!(map.get_source(&module("main")), Some("root text"));
    assert_eq!(map.get_display_name(&module("main")), None);
    assert_eq!(map.get_source(&module("util")), Some("util text"));
}

#[test]
fn resolving_twice_to_the_same_text_changes_nothing() {
    let root = module("main");
    let resolver = Files::main_only();
    let mangler = Numbering::new();

    let mut once = SourceMapper::new(&root, &resolver, &mangler);
    assert!(once.resolve_source(&module("main")).is_ok());
    let once = once.finish();

    let mut twice = SourceMapper::new(&root, &resolver, &mangler);
    assert!(twice.resolve_source(&module("main")).is_ok());
    assert!(twice.resolve_source(&module("main")).is_ok());
    let twice = twice.finish();

    let main = module("main");
    assert_eq!(twice.get_source(&main), once.get_source(&main));
    assert_eq!(twice.get_display_name(&main), once.get_display_name(&main));
    assert_eq!(twice.get_default_source(), once.get_default_source());
    assert_eq!(twice.get_source(&main), Some("fn f(){}"));
    assert_eq!(twice.get_display_name(&main), Some("main.lang"));
}

#[test]
fn resolving_again_keeps_only_the_second_text() {
    let root = module("main");
    let resolver = Changing { calls: Cell::new(0) };
    let mangler = Numbering::new();
    let mut mapper = SourceMapper::new(&root, &resolver, &mangler);
    assert_eq!(
        mapper.resolve_source(&module("main")),
        Ok(Cow::Owned("version 1".to_string()))
    );
    assert_eq!(
        mapper.resolve_source(&module("main")),
        Ok(Cow::Owned("version 2".to_string()))
    );
    let map = mapper.finish();
    assert_eq!(map.get_source(&module("main")), Some("version 2"));
    assert_eq!(map.get_display_name(&module("main")), Some("name 2"));
    assert_eq!(map.get_default_source(), Some("version 2"));
}

#[test]
fn every_mangled_name_leads_back() {
    let root = module("main");
    let resolver = Files::main_only();
    let mangler = Numbering::new();
    let mut mapper = SourceMapper::new(&root, &resolver, &mangler);
    let a = mapper.mangle(&module("a"), "f");
    let b = mapper.mangle(&module("b"), "f");
    let c = mapper.mangle(&module("a"), "g");
    assert_eq!((a.as_str(), b.as_str(), c.as_str()), ("f_1", "f_2", "g_3"));
    let map = mapper.finish();
    let module_a = module("a");
    let module_b = module("b");
    assert_eq!(map.get_decl("f_1"), Some((&module_a, "f")));
    assert_eq!(map.get_decl("f_2"), Some((&module_b, "f")));
    assert_eq!(map.get_decl("g_3"), Some((&module_a, "g")));
    assert_eq!(map.get_decl("g_4"), None);
    assert_eq!(map.get_source(&module_a), None);
    assert_eq!(map.get_display_name(&module_b), None);
}

#[test]
fn colliding_names_keep_the_last_declaration() {
    let root = module("main");
    let resolver = Files::main_only();
    let mangler = Colliding;
    let mut mapper = SourceMapper::new(&root, &resolver, &mangler);
    assert_eq!(mapper.mangle(&module("a"), "f"), "same");
    assert_eq!(mapper.mangle(&module("b"), "g"), "same");
    let map = mapper.finish();
    let b = module("b");
    assert_eq!(map.get_decl("same"), Some((&b, "g")));
}

#[test]
fn pass_throughs_record_nothing() {
    let root = module("main");
    let resolver = Files::main_only();
    let mangler = Numbering::new();
    let mapper = SourceMapper::new(&root, &resolver, &mangler);

    assert_eq!(
        mapper.display_name(&module("main")),
        Some("main.lang".to_string())
    );
    assert_eq!(mapper.display_name(&module("other")), None);
    assert_eq!(
        mapper.fs_path(&module("main")),
        Some(PathBuf::from("/src/main.lang"))
    );
    assert_eq!(mapper.fs_path(&module("other")), None);
    assert_eq!(
        mapper.unmangle("f_1"),
        Some((module("unmangled"), "f".to_string()))
    );
    assert_eq!(mapper.unmangle("f"), None);
    let types = vec![
        TypeExpression::new(Ident::new("u32".to_string())),
        TypeExpression::new(Ident::new("f32".to_string())),
    ];
    assert_eq!(mapper.mangle_types("g", 7, &types), "g_7_2");
    assert_eq!(mapper.mangle_types("g", 0, &[]), "g_0_0");

    let map = mapper.finish();
    assert_eq!(map.get_decl("f_1"), None);
    assert_eq!(map.get_decl("g_7_2"), None);
    assert_eq!(map.get_source(&module("main")), None);
    assert_eq!(map.get_display_name(&module("main")), None);
    assert_eq!(map.get_default_source(), None);
}

#[test]
fn unmangle_does_not_read_the_record() {
    let root = module("main");
    let resolver = Files::main_only();
    let mangler = Colliding;
    let mut mapper = SourceMapper::new(&root, &resolver, &mangler);
    assert_eq!(mapper.mangle(&module("a"), "f"), "same");
    assert_eq!(mapper.unmangle("same"), None);
}

#[test]
fn accessors_give_back_what_new_was_given() {
    let root = module("main");
    let resolver = Files::main_only();
    let mangler = Numbering::new();
    let mapper = SourceMapper::new(&root, &resolver, &mangler);
    assert!(std::ptr::eq(mapper.root(), &root));
    assert!(std::ptr::eq(mapper.resolver(), &resolver));
    assert!(std::ptr::eq(mapper.mangler(), &mangler));
}

#[test]
fn recording_by_hand() {
    let root = module("main");
    let resolver = Files::main_only();
    let mangler = Numbering::new();
    let mut mapper = SourceMapper::new(&root, &resolver, &mangler);
    mapper.record_source(&module("main"), Some("shown".to_string()), "text");
    mapper.record_decl("f_9", &module("main"), "f");
    assert_eq!(resolver.resolved.get(), 0);
    let map = mapper.finish();
    let main = module("main");
    assert_eq!(map.get_decl("f_9"), Some((&main, "f")));
    assert_eq!(map.get_source(&main), Some("text"));
    assert_eq!(map.get_display_name(&main), Some("shown"));
    assert_eq!(map.get_default_source(), Some("text"));
}

#[test]
fn works_through_trait_objects() {
    let root = module("main");
    let files = Files::main_only();
    let numbering = Numbering::new();
    let resolver: &dyn Resolver = &files;
    let mangler: &dyn Mangler = &numbering;
    let mut mapper: SourceMapper<dyn Resolver, dyn Mangler> =
        SourceMapper::new(&root, resolver, mangler);
    assert_eq!(
        mapper.resolve_source(&module("main")),
        Ok(Cow::Borrowed("fn f(){}"))
    );
    assert_eq!(mapper.mangle(&module("main"), "f"), "f_1");
    let map = mapper.finish();
    assert_eq!(map.get_default_source(), Some("fn f(){}"));
    let main = module("main");
    assert_eq!(map.get_decl("f_1"), Some((&main, "f")));
}

#[test]
fn the_record_does_not_change_what_the_compiler_sees() {
    let root = module("main");
    let resolver = Files::new(vec![
        (module("main"), Some("main.lang".to_string()), "a".to_string()),
        (module("util"), None, "b".to_string()),
    ]);
    let plain = Numbering::new();
    let recorded = Numbering::new();
    let mut mapper = SourceMapper::new(&root, &resolver, &recorded);
    for name in ["main", "util", "none", "main"] {
        assert_eq!(
            mapper.resolve_source(&module(name)),
            resolver.resolve_source(&module(name))
        );
    }
    for item in ["f", "g", "f"] {
        assert_eq!(
            mapper.mangle(&module("main"), item),
            plain.mangle(&module("main"), item)
        );
    }
}

use tea::config::{all_configs, find, lookup, Config, ConfigRegistry, Configurable};

/// Testing string-shaped configs
fn stringy() -> Config<String> {
    Config::new(
        "STRINGY",
        "String",
        "usage::STRINGY",
        " Testing string-shaped configs",
        r#""Hello, world!" . to_string()"#,
        "Hello, world!".to_string(),
    )
}

/// A cvar just for clobbering with the set test
fn clobberme() -> Config<String> {
    Config::new(
        "CLOBBERME",
        "String",
        "usage::CLOBBERME",
        " A cvar just for clobbering with the set test",
        r#""Hello, world!" . to_string()"#,
        "Hello, world!".to_string(),
    )
}

/// A more complicated initializer for a string
fn complicated_string() -> Config<String> {
    Config::new(
        "COMPLICATED_STRING",
        "String",
        "usage::COMPLICATED_STRING",
        " A more complicated initializer for a string",
        r#"{ let first = "Hello"; let second = "world"; format! ("{}, {}!", first, second) }"#,
        {
            let first = "Hello";
            let second = "world";
            format!("{}, {}!", first, second)
        },
    )
}

#[test]
fn smoke() {
    let stringy = stringy();
    let clobberme = clobberme();
    let mut registry = ConfigRegistry::new();
    registry.register(&stringy);
    registry.register(&clobberme);
    let mut configs = registry.iter();
    while let Some(cfg) = configs.next() {
        println!("{:#?}", cfg);
    }
}

#[test]
fn string_config() {
    assert_eq!(stringy().get(), "Hello, world!");
}

#[test]
fn complicated_string_config() {
    assert_eq!(complicated_string().get(), "Hello, world!");
}

#[test]
fn registration() {
    let stringy = stringy();
    let clobberme = clobberme();
    let complicated_string = complicated_string();
    let mut registry = ConfigRegistry::new();
    registry.register(&stringy);
    registry.register(&clobberme);
    registry.register(&complicated_string);

    let mut stringy_found = false;
    let mut cs_found = false;
    let mut configs = registry.iter();
    while let Some(cfg) = configs.next() {
        if cfg.get_name() == "STRINGY" {
            stringy_found = true;
        }
        if cfg.get_name() == "COMPLICATED_STRING" {
            cs_found = true;
        }
    }
    assert!(stringy_found, "Found the test cvar STRINGY");
    assert!(cs_found, "Found the test cvar COMPLICATED_STRING");
}

#[test]
fn metadata() {
    let stringy = stringy();
    let cfg: &dyn Configurable = &stringy;
    assert_eq!(cfg.get_name(), "STRINGY");
    assert_eq!(cfg.get_type(), "String");
    assert_eq!(cfg.get_path(), "usage::STRINGY");
    assert_eq!(cfg.get_purpose(), " Testing string-shaped configs");
    assert_eq!(cfg.get_default_value(), r#""Hello, world!" . to_string()"#);
}

#[test]
fn searching() {
    let stringy = stringy();
    let clobberme = clobberme();
    let complicated_string = complicated_string();
    let mut registry = ConfigRegistry::new();
    registry.register(&stringy);
    registry.register(&clobberme);
    registry.register(&complicated_string);

    assert_eq!(find(&registry, "STRINGY").len(), 1);

    let search_path = "usage::STRINGY";
    assert_eq!(
        lookup(&registry, search_path).unwrap().get_name(),
        stringy.get_name()
    );
}

#[test]
fn registry_lists_the_latest_first() {
    let stringy = stringy();
    let clobberme = clobberme();
    let complicated_string = complicated_string();
    let mut registry = ConfigRegistry::new();
    registry.register(&stringy);
    registry.register(&clobberme);
    registry.register(&complicated_string);

    let mut names = Vec::new();
    let mut configs = all_configs(&registry);
    while let Some(cfg) = configs.next() {
        names.push(cfg.get_name());
    }
    assert_eq!(names, vec!["COMPLICATED_STRING", "CLOBBERME", "STRINGY"]);
    assert!(configs.next().is_none());
}

#[test]
fn find_keeps_every_variable_of_the_name_in_order() {
    let first = Config::new("SAME", "u8", "a::SAME", " first", "1", 1u8);
    let other = Config::new("OTHER", "u8", "a::OTHER", " other", "2", 2u8);
    let second = Config::new("SAME", "u8", "b::SAME", " second", "3", 3u8);
    let mut registry = ConfigRegistry::new();
    registry.register(&first);
    registry.register(&other);
    registry.register(&second);

    let found = find(&registry, "SAME");
    assert_eq!(found.len(), 2);
    assert_eq!(found[0].get_path(), "b::SAME");
    assert_eq!(found[1].get_path(), "a::SAME");
    assert!(find(&registry, "MISSING").is_empty());
}

#[test]
fn lookup_takes_the_first_of_the_path_and_misses_the_rest() {
    let old = Config::new("OLD", "u8", "a::TWICE", " old", "1", 1u8);
    let new = Config::new("NEW", "u8", "a::TWICE", " new", "2", 2u8);
    let mut registry = ConfigRegistry::new();
    assert!(lookup(&registry, "a::TWICE").is_none());
    registry.register(&old);
    registry.register(&new);

    assert_eq!(lookup(&registry, "a::TWICE").unwrap().get_name(), "NEW");
    assert!(lookup(&registry, "a::ONCE").is_none());
    assert!(lookup(&registry, "").is_none());
}

#[test]
fn set_replaces_the_value_and_keeps_the_description() {
    let mut cfg = clobberme();
    cfg.set("Hi, I am a new string!".to_string());
    assert_eq!(cfg.get(), "Hi, I am a new string!");
    assert_eq!(cfg.get_name(), "CLOBBERME");
    assert_eq!(cfg.get_path(), "usage::CLOBBERME");
    assert_eq!(cfg.get_default_value(), r#""Hello, world!" . to_string()"#);
}

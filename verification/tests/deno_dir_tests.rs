use deno_dir::{
    code_fetch_finish, get_cache_filename, is_remote, source_code_hash, CacheLookup,
    CodeFetchOutput, DenoDir, DenoError, ModuleLocation, ModuleUrl, SourceAction,
};

fn test_setup() -> DenoDir {
    DenoDir::new(false, "/deno/testroot")
}

fn url(text: &str, scheme: &str, host: &str, path: &str) -> ModuleUrl {
    ModuleUrl {
        text: text.to_string(),
        scheme: scheme.to_string(),
        host: host.to_string(),
        path: path.to_string(),
    }
}

#[test]
fn test_get_cache_filename() {
    let url = "http://example.com:1234/path/to/file.ts";
    let basedir = "/cache/dir/";
    let cache_file = get_cache_filename(basedir, url).unwrap();
    assert_eq!(cache_file, "/cache/dir/example.com/path/to/file.ts");
}

#[test]
fn test_get_cache_filename_not_a_url() {
    assert_eq!(get_cache_filename("/cache/dir/", "hello.ts"), None);
    assert_eq!(get_cache_filename("/cache/dir/", "./subdir/hello.ts"), None);
}

#[test]
fn test_cache_path() {
    let deno_dir = test_setup();
    assert_eq!(
        format!(
            "{}/{}",
            deno_dir.root, "gen/a3e29aece8d35a19bf9da2bb1c086af71fb36ed5.js"
        ),
        deno_dir.cache_path("hello.ts", "1+2")
    );
}

#[test]
fn test_source_code_hash() {
    assert_eq!(
        "a3e29aece8d35a19bf9da2bb1c086af71fb36ed5",
        source_code_hash("hello.ts", "1+2")
    );
    // Different source_code should result in different hash.
    assert_eq!(
        "914352911fc9c85170908ede3df1128d690dda41",
        source_code_hash("hello.ts", "1")
    );
    // Different filename should result in different hash.
    assert_eq!(
        "2e396bc66101ecc642db27507048376d972b1b70",
        source_code_hash("hi.ts", "1+2")
    );
}

#[test]
fn test_source_code_hash_repeated_calls_agree() {
    let first = source_code_hash("hello.ts", "1+2");
    let second = source_code_hash("hello.ts", "1+2");
    assert_eq!(first, second);
}

#[test]
fn test_src_file_to_url() {
    let deno_dir = test_setup();
    assert_eq!("hello", deno_dir.src_file_to_url("hello"));
    assert_eq!("/hello", deno_dir.src_file_to_url("/hello"));
    let x = format!("{}/hello/world.txt", deno_dir.deps);
    assert_eq!("http://hello/world.txt", deno_dir.src_file_to_url(&x));
}

#[test]
fn test_resolve_module() {
    let deno_dir = test_setup();

    let d = format!("{}/localhost/testdata/subdir/print_hello.ts", deno_dir.deps);

    let test_cases = [
        (
            "./subdir/print_hello.ts",
            "/Users/rld/go/src/github.com/denoland/deno/testdata/006_url_imports.ts",
            ModuleLocation::Path(
                "/Users/rld/go/src/github.com/denoland/deno/testdata/subdir/print_hello.ts"
                    .to_string(),
            ),
            "/Users/rld/go/src/github.com/denoland/deno/testdata/subdir/print_hello.ts"
                .to_string(),
        ),
        (
            "testdata/001_hello.js",
            "/Users/rld/go/src/github.com/denoland/deno/",
            ModuleLocation::Path(
                "/Users/rld/go/src/github.com/denoland/deno/testdata/001_hello.js".to_string(),
            ),
            "/Users/rld/go/src/github.com/denoland/deno/testdata/001_hello.js".to_string(),
        ),
        (
            "/Users/rld/src/deno/hello.js",
            ".",
            ModuleLocation::Path("/Users/rld/src/deno/hello.js".to_string()),
            "/Users/rld/src/deno/hello.js".to_string(),
        ),
        (
            "/this/module/got/imported.js",
            "/that/module/did/it.js",
            ModuleLocation::Path("/this/module/got/imported.js".to_string()),
            "/this/module/got/imported.js".to_string(),
        ),
        (
            "http://localhost:4545/testdata/subdir/print_hello.ts",
            "/Users/rld/go/src/github.com/denoland/deno/testdata/006_url_imports.ts",
            ModuleLocation::Url(url(
                "http://localhost:4545/testdata/subdir/print_hello.ts",
                "http",
                "localhost",
                "/testdata/subdir/print_hello.ts",
            )),
            d.clone(),
        ),
    ];
    for test in test_cases.iter() {
        let module_specifier = String::from(test.0);
        let containing_file = String::from(test.1);
        let (module_name, filename) = deno_dir
            .resolve_module(&module_specifier, &containing_file)
            .unwrap();

        assert_eq!(module_name, test.2);
        assert_eq!(filename, test.3);
    }
}

#[test]
fn test_resolve_module_dir_base_used_directly() {
    let deno_dir = test_setup();
    let (module_name, filename) = deno_dir
        .resolve_module("testdata/001_hello.js", "/repo/")
        .unwrap();
    assert_eq!(
        module_name,
        ModuleLocation::Path("/repo/testdata/001_hello.js".to_string())
    );
    assert_eq!(filename, "/repo/testdata/001_hello.js");
}

#[test]
fn test_resolve_module_join_normalization() {
    let deno_dir = test_setup();
    // `.` and empty segments of the specifier are dropped; `..` is kept as
    // written, escaping nothing at resolution time.
    let (_, filename) = deno_dir
        .resolve_module("sub//./f.ts", "/a/b/c.ts")
        .unwrap();
    assert_eq!(filename, "/a/b/sub/f.ts");
    let (_, filename) = deno_dir.resolve_module("../x.ts", "/a/b/c.ts").unwrap();
    assert_eq!(filename, "/a/b/../x.ts");
    let (_, filename) = deno_dir.resolve_module(".", "/a/b/c.ts").unwrap();
    assert_eq!(filename, "/a/b");
}

#[test]
fn test_resolve_module_bad_containing_file() {
    let deno_dir = test_setup();
    let r = deno_dir.resolve_module("hello.ts", "baddir");
    assert_eq!(r, Err(DenoError::ResolutionError));
    let r = deno_dir.resolve_module("./hello.ts", "");
    assert_eq!(r, Err(DenoError::ResolutionError));
}

#[test]
fn test_is_remote() {
    assert_eq!(
        is_remote(&ModuleLocation::Path("http-import.ts".to_string())),
        false
    );
    assert_eq!(
        is_remote(&ModuleLocation::Path("http/file.ts".to_string())),
        false
    );
    assert_eq!(
        is_remote(&ModuleLocation::Path("/home/tommy/http.ts".to_string())),
        false
    );
    assert_eq!(
        is_remote(&ModuleLocation::Path("C:\\Users\\tommy\\http.ts".to_string())),
        false
    );
    assert_eq!(
        is_remote(&ModuleLocation::Url(url(
            "http://example.com/http.ts",
            "http",
            "example.com",
            "/http.ts"
        ))),
        true
    );
    assert_eq!(
        is_remote(&ModuleLocation::Url(url(
            "https://example.com/http.ts",
            "https",
            "example.com",
            "/http.ts"
        ))),
        true
    );
}

#[test]
fn test_module_location_to_string() {
    let loc = ModuleLocation::Path("/a/b.ts".to_string());
    assert_eq!(loc.to_string(), "/a/b.ts");
    let loc = ModuleLocation::Url(url("http://h/x.ts", "http", "h", "/x.ts"));
    assert_eq!(loc.to_string(), "http://h/x.ts");
}

#[test]
fn test_plan_reload_forces_download() {
    let deno_dir = DenoDir::new(true, "/deno/testroot");
    let loc = ModuleLocation::Url(url(
        "http://localhost:4545/x.ts",
        "http",
        "localhost",
        "/x.ts",
    ));
    let mirror = format!("{}/localhost/x.ts", deno_dir.deps);
    // The mirror exists, yet the reload flag forces a network fetch.
    let r = deno_dir.code_fetch_plan(&loc, &mirror, true);
    assert_eq!(
        r,
        Ok(SourceAction::Download(
            "http://localhost:4545/x.ts".to_string(),
            mirror.clone()
        ))
    );
}

#[test]
fn test_plan_mirror_read_without_reload() {
    let deno_dir = test_setup();
    let loc = ModuleLocation::Url(url(
        "http://localhost:4545/x.ts",
        "http",
        "localhost",
        "/x.ts",
    ));
    let mirror = format!("{}/localhost/x.ts", deno_dir.deps);
    let r = deno_dir.code_fetch_plan(&loc, &mirror, true);
    assert_eq!(r, Ok(SourceAction::ReadMirror(mirror.clone())));
    // Without a mirror the module must be downloaded.
    let r = deno_dir.code_fetch_plan(&loc, &mirror, false);
    assert_eq!(
        r,
        Ok(SourceAction::Download(
            "http://localhost:4545/x.ts".to_string(),
            mirror.clone()
        ))
    );
}

#[test]
fn test_plan_local_read() {
    let deno_dir = test_setup();
    let loc = ModuleLocation::Path("/repo/main.ts".to_string());
    let r = deno_dir.code_fetch_plan(&loc, "/repo/main.ts", false);
    assert_eq!(r, Ok(SourceAction::ReadLocal("/repo/main.ts".to_string())));
}

#[test]
fn test_plan_reserved_location() {
    let deno_dir = test_setup();
    let reserved = "/$asset$/globals.d.ts";
    let loc = ModuleLocation::Path(reserved.to_string());
    let r = deno_dir.code_fetch_plan(&loc, reserved, false);
    assert_eq!(r, Err(DenoError::ReservedLocationError));
}

#[test]
fn test_finish_cache_miss_is_not_an_error() {
    let r = code_fetch_finish(
        "/repo/main.ts".to_string(),
        "/repo/main.ts".to_string(),
        "1+2".to_string(),
        CacheLookup::Miss,
    );
    assert_eq!(
        r,
        Ok(CodeFetchOutput {
            module_name: "/repo/main.ts".to_string(),
            filename: "/repo/main.ts".to_string(),
            source_code: "1+2".to_string(),
            maybe_output_code: None,
        })
    );
}

#[test]
fn test_finish_cache_hit() {
    let r = code_fetch_finish(
        "/repo/main.ts".to_string(),
        "/repo/main.ts".to_string(),
        "1+2".to_string(),
        CacheLookup::Hit("1+2 // output code".to_string()),
    );
    assert_eq!(
        r,
        Ok(CodeFetchOutput {
            module_name: "/repo/main.ts".to_string(),
            filename: "/repo/main.ts".to_string(),
            source_code: "1+2".to_string(),
            maybe_output_code: Some("1+2 // output code".to_string()),
        })
    );
}

#[test]
fn test_finish_cache_read_failure() {
    let r = code_fetch_finish(
        "/repo/main.ts".to_string(),
        "/repo/main.ts".to_string(),
        "1+2".to_string(),
        CacheLookup::Failed,
    );
    assert_eq!(r, Err(DenoError::CacheIOError));
}

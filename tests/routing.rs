use actix_tera_page::{
    normalize_prefix, page_from_render, resolve, select_template,
    trim_end_slashes_of, Action, TeraPage, TeraPageMiddleware, STATUS_OK, STATUS_RENDER_FAILED,
};
use tera::{Context, Tera};

fn names(list: &[&str]) -> Vec<String> {
    list.iter().map(|s| s.to_string()).collect()
}

fn middleware(prefix: &str) -> TeraPageMiddleware<(), ()> {
    TeraPage::new(prefix, ()).new_transform(())
}

fn rendered(a: Action) -> Option<String> {
    match a {
        Action::Render(name) => Some(name),
        Action::Delegate => None,
    }
}

#[test]
fn resolve_non_empty_path_gives_file_then_index() {
    assert_eq!(
        resolve("/about", "pages"),
        names(&["pages/about.html", "pages/about/index.html"])
    );
}

#[test]
fn resolve_empty_path_gives_root_index() {
    assert_eq!(resolve("", "pages"), names(&["pages/index.html"]));
    assert_eq!(resolve("", ""), names(&["/index.html"]));
}

#[test]
fn resolve_twice_gives_same_result() {
    assert_eq!(resolve("/a/b", "site"), resolve("/a/b", "site"));
    assert_eq!(resolve("", "site"), resolve("", "site"));
}

#[test]
fn trailing_slashes_are_trimmed() {
    assert_eq!(trim_end_slashes_of("/about//"), "/about");
    assert_eq!(trim_end_slashes_of("/"), "");
    assert_eq!(trim_end_slashes_of("/a/b"), "/a/b");
    assert_eq!(trim_end_slashes_of(""), "");
}

#[test]
fn prefix_is_trimmed_at_both_ends() {
    assert_eq!(normalize_prefix("//pages/"), "pages");
    assert_eq!(normalize_prefix("pages/sub"), "pages/sub");
    assert_eq!(normalize_prefix("///"), "");
    assert_eq!(normalize_prefix(""), "");
    assert_eq!(middleware("/pages/").template_prefix(), "pages");
}

#[test]
fn last_registered_candidate_is_selected() {
    let cands = resolve("/about", "pages");
    let both = names(&["pages/about.html", "pages/about/index.html"]);
    assert_eq!(
        select_template(&cands, &both),
        Some("pages/about/index.html".to_string())
    );
    let file = names(&["other.html", "pages/about.html"]);
    assert_eq!(select_template(&cands, &file), Some("pages/about.html".to_string()));
    assert_eq!(select_template(&cands, &names(&[])), None);
}

#[test]
fn both_candidates_registered_renders_directory_index() {
    let m = middleware("pages");
    let reg = names(&["pages/docs.html", "pages/docs/index.html"]);
    assert_eq!(
        rendered(m.route(true, "/docs", &reg)),
        Some("pages/docs/index.html".to_string())
    );
}

#[test]
fn post_request_is_delegated() {
    let m = middleware("pages");
    let reg = names(&["pages/about.html", "pages/about/index.html", "pages/index.html"]);
    assert_eq!(rendered(m.route(false, "/about", &reg)), None);
    assert_eq!(rendered(m.route(false, "/", &reg)), None);
}

#[test]
fn get_about_renders_about_template() {
    let m = middleware("pages");
    let reg = names(&["pages/about.html"]);
    assert_eq!(
        rendered(m.route(true, "/about", &reg)),
        Some("pages/about.html".to_string())
    );
    assert_eq!(
        rendered(m.route(true, "/about/", &reg)),
        Some("pages/about.html".to_string())
    );
}

#[test]
fn get_unknown_path_is_delegated() {
    let m = middleware("pages");
    let reg = names(&["pages/about.html", "pages/index.html"]);
    assert_eq!(rendered(m.route(true, "/nonexistent", &reg)), None);
}

#[test]
fn get_root_renders_prefixed_index() {
    let m = middleware("pages");
    let reg = names(&["pages/index.html"]);
    assert_eq!(
        rendered(m.route(true, "/", &reg)),
        Some("pages/index.html".to_string())
    );
    assert_eq!(
        rendered(m.route(true, "", &reg)),
        Some("pages/index.html".to_string())
    );
}

fn engine() -> Tera {
    let mut t = Tera::default();
    t.add_raw_template("pages/about.html", "Hello {{ username }}")
        .unwrap();
    t.add_raw_template("pages/index.html", "Home").unwrap();
    t
}

#[test]
fn engine_templates_are_matched() {
    let t = engine();
    let m = middleware("/pages");
    assert_eq!(
        rendered(m.route_with_engine(true, "/about", &t)),
        Some("pages/about.html".to_string())
    );
    assert_eq!(
        rendered(m.route_with_engine(true, "/", &t)),
        Some("pages/index.html".to_string())
    );
    assert_eq!(rendered(m.route_with_engine(true, "/missing", &t)), None);
    assert_eq!(rendered(m.route_with_engine(false, "/about", &t)), None);
}

#[test]
fn matched_template_renders_with_context() {
    let t = engine();
    let mut context = Context::new();
    context.insert("username", "User Name");
    let page = page_from_render(t.render("pages/about.html", &context));
    assert_eq!(page.status, STATUS_OK);
    assert_eq!(page.body, "Hello User Name");
}

#[test]
fn unknown_template_renders_as_server_error() {
    let t = engine();
    let page = page_from_render(t.render("pages/missing.html", &Context::new()));
    assert_eq!(page.status, STATUS_RENDER_FAILED);
    assert_eq!(page.body, "");
}

#[test]
fn render_outcome_maps_to_status() {
    let ok = page_from_render(Ok("body".to_string()));
    assert_eq!(ok.status, 200);
    assert_eq!(ok.body, "body");
    let failed = page_from_render(Err(tera::Error::msg("broken")));
    assert_eq!(failed.status, 500);
    assert_eq!(failed.body, "");
}

#[test]
fn middleware_keeps_service_and_builder() {
    let m = TeraPage::new("pages", 7u8).new_transform("svc");
    assert_eq!(*m.service(), "svc");
    assert_eq!(*m.context_builder(), 7u8);
}

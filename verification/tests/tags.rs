use hdcquery::hubapi::{Image, Tag, Timestamp};
use hdcquery::options::{Options, SearchOptions, ShowOptions, TagsOptions, DEFAULT_TAGS_LIMIT};
use hdcquery::tags::{
    count_line, header, machine_arch, machine_os, row, tags_url, Listing, Response,
};

fn image(os: &str, architecture: &str, size: u64) -> Image {
    Image { architecture: architecture.to_string(), os: os.to_string(), size, digest: None }
}

fn tag(name: &str, images: Vec<Image>) -> Tag {
    Tag { name: name.to_string(), images, last_updated: Some(Timestamp { secs: 1431648000, nanos: 0 }) }
}

fn options(limit: usize) -> TagsOptions {
    TagsOptions { limit, ..TagsOptions::default() }
}

fn page() -> Response {
    Response {
        count: 3,
        results: vec![
            tag(
                "latest",
                vec![
                    image("linux", "amd64", 512),
                    image("linux", "arm64", 1536),
                    image("windows", "amd64", 5 * 1024 * 1024),
                ],
            ),
            tag("empty", Vec::new()),
            tag("1.0", vec![image("linux", "amd64", 1023), image("linux", "386", 0)]),
        ],
    }
}

#[test]
fn default_options() {
    let tags = TagsOptions::default();
    assert_eq!(tags.limit, 30);
    assert_eq!(DEFAULT_TAGS_LIMIT, 30);
    assert!(tags.architecture.is_none() && tags.operating_system.is_none());
    assert!(!tags.current_machine && tags.repositories.is_empty());
    let search = SearchOptions::default();
    assert!(search.limit.is_none() && search.search_url.is_none() && search.terms.is_empty());
    let show = ShowOptions::default();
    assert!(!show.only_description && show.repositories.is_empty());
    let all = Options::default();
    assert!(!all.help && all.command.is_none());
}

#[test]
fn machine_names_as_the_registry_writes_them() {
    assert_eq!(machine_os("linux"), Some("linux".to_string()));
    assert_eq!(machine_os("windows"), Some("windows".to_string()));
    assert_eq!(machine_os("macos"), None);
    assert_eq!(machine_arch("x86_64"), Some("amd64".to_string()));
    assert_eq!(machine_arch("x86"), Some("386".to_string()));
    assert_eq!(machine_arch("arm"), Some("arm".to_string()));
    assert_eq!(machine_arch("aarch64"), Some("arm64".to_string()));
    assert_eq!(machine_arch("riscv64"), None);
}

#[test]
fn tags_url_names_page_and_page_size() {
    assert_eq!(
        tags_url("rustlang/rust", 1, 30),
        "https://hub.docker.com/v2/repositories/rustlang/rust/tags/?page=1&page_size=30"
    );
    assert_eq!(
        tags_url("httpd", 12, 500),
        "https://hub.docker.com/v2/repositories/library/httpd/tags/?page=12&page_size=50"
    );
    assert_eq!(
        tags_url("httpd", 2, 50),
        "https://hub.docker.com/v2/repositories/library/httpd/tags/?page=2&page_size=50"
    );
    assert_eq!(
        tags_url("httpd", 1, 0),
        "https://hub.docker.com/v2/repositories/library/httpd/tags/?page=1&page_size=0"
    );
}

#[test]
fn rows_of_the_listing() {
    assert_eq!(count_line(17, "httpd"), "- 17 results for httpd");
    assert_eq!(
        header(),
        format!("{:10} {:8.8} {:6.6} {:15} {}", "SIZE", "OS", "ARCH", "LAST PUSHED", "NAME")
    );
    assert_eq!(
        row("1.5 kiB", "linux", "amd64", "3 days ago", "latest"),
        format!("{:10} {:8.8} {:6.6} {:15} {}", "1.5 kiB", "linux", "amd64", "3 days ago", "latest")
    );
    assert_eq!(
        row("123456789012 B", "a-long-system", "a-long-arch", "a very long time ago", "name"),
        format!(
            "{:10} {:8.8} {:6.6} {:15} {}",
            "123456789012 B", "a-long-system", "a-long-arch", "a very long time ago", "name"
        )
    );
}

#[test]
fn first_page_is_headed_and_lists_every_image() {
    let mut listing = Listing::new(&options(30), "linux", "x86_64");
    assert_eq!(
        listing.url("httpd"),
        "https://hub.docker.com/v2/repositories/library/httpd/tags/?page=1&page_size=30"
    );
    let listed = listing.on_page("httpd", &page());
    assert_eq!(
        listed.lines,
        vec![
            "- 3 results for httpd".to_string(),
            header(),
            row("512 B", "linux", "amd64", "2015-05-15", "latest"),
            row("1.5 kiB", "linux", "arm64", "2015-05-15", "latest"),
            row("5.0 MiB", "windows", "amd64", "2015-05-15", "latest"),
            row("1023 B", "linux", "amd64", "2015-05-15", "1.0"),
            row("0 B", "linux", "386", "2015-05-15", "1.0"),
        ]
    );
    assert!(listed.more);
    assert_eq!(listing.pending(), 25);
    assert_eq!(listing.page(), 2);
}

#[test]
fn later_pages_have_no_heading() {
    let mut listing = Listing::new(&options(30), "linux", "x86_64");
    listing.on_page("httpd", &page());
    assert_eq!(
        listing.url("httpd"),
        "https://hub.docker.com/v2/repositories/library/httpd/tags/?page=2&page_size=30"
    );
    let listed = listing.on_page("httpd", &page());
    assert_eq!(listed.lines.len(), 5);
    assert_eq!(listed.lines[0], row("512 B", "linux", "amd64", "2015-05-15", "latest"));
    assert_eq!(listing.pending(), 20);
    assert_eq!(listing.page(), 3);
}

#[test]
fn page_without_tags_ends_the_repository() {
    let mut listing = Listing::new(&options(30), "linux", "x86_64");
    let listed = listing.on_page("httpd", &Response { count: 0, results: Vec::new() });
    assert_eq!(listed.lines, vec!["- 0 results for httpd".to_string(), header()]);
    assert!(!listed.more);
    assert_eq!(listing.page(), 1);
    assert_eq!(listing.pending(), 30);
}

#[test]
fn images_are_filtered_by_system_and_architecture() {
    let mut wanted = options(30);
    wanted.operating_system = Some("linux".to_string());
    let mut listing = Listing::new(&wanted, "windows", "x86");
    let listed = listing.on_page("httpd", &page());
    assert_eq!(listed.lines.len(), 2 + 4);
    assert_eq!(listing.pending(), 26);

    wanted.architecture = Some("amd64".to_string());
    let mut listing = Listing::new(&wanted, "windows", "x86");
    let listed = listing.on_page("httpd", &page());
    assert_eq!(
        listed.lines[2..],
        [
            row("512 B", "linux", "amd64", "2015-05-15", "latest"),
            row("1023 B", "linux", "amd64", "2015-05-15", "1.0"),
        ]
    );
    assert!(listed.more);
}

#[test]
fn current_machine_overrides_the_named_filters() {
    let mut wanted = options(30);
    wanted.current_machine = true;
    wanted.operating_system = Some("linux".to_string());
    wanted.architecture = Some("arm64".to_string());
    let mut listing = Listing::new(&wanted, "windows", "x86_64");
    let listed = listing.on_page("httpd", &page());
    assert_eq!(
        listed.lines[2..],
        [row("5.0 MiB", "windows", "amd64", "2015-05-15", "latest")]
    );

    let mut listing = Listing::new(&wanted, "freebsd", "riscv64");
    let listed = listing.on_page("httpd", &page());
    assert_eq!(listed.lines.len(), 2 + 5);
}

#[test]
fn limit_ends_the_listing_at_the_next_image() {
    let mut listing = Listing::new(&options(2), "linux", "x86_64");
    let listed = listing.on_page("httpd", &page());
    assert_eq!(
        listed.lines[2..],
        [
            row("512 B", "linux", "amd64", "2015-05-15", "latest"),
            row("1.5 kiB", "linux", "arm64", "2015-05-15", "latest"),
        ]
    );
    assert!(!listed.more);
    assert_eq!(listing.pending(), 0);
    assert_eq!(listing.page(), 1);
}

#[test]
fn limit_met_by_the_last_image_asks_for_one_more_page() {
    let mut listing = Listing::new(&options(5), "linux", "x86_64");
    let listed = listing.on_page("httpd", &page());
    assert_eq!(listed.lines.len(), 2 + 5);
    assert!(listed.more);
    assert_eq!(listing.pending(), 0);
    let listed = listing.on_page("httpd", &page());
    assert!(listed.lines.is_empty());
    assert!(!listed.more);
}

#[test]
fn limit_is_shared_by_the_repositories() {
    let mut listing = Listing::new(&options(7), "linux", "x86_64");
    listing.on_page("httpd", &page());
    assert_eq!(listing.pending(), 2);
    listing.begin();
    assert_eq!(listing.page(), 1);
    assert_eq!(listing.pending(), 2);
    let listed = listing.on_page("nginx", &page());
    assert_eq!(listed.lines.len(), 2 + 2);
    assert_eq!(listed.lines[0], "- 3 results for nginx");
    assert!(!listed.more);
    listing.begin();
    let listed = listing.on_page("rust", &page());
    assert_eq!(listed.lines, vec!["- 3 results for rust".to_string(), header()]);
    assert!(!listed.more);
}

#[test]
fn tag_without_moment_has_an_empty_cell() {
    let mut listing = Listing::new(&options(30), "linux", "x86_64");
    let mut untimed = tag("old", vec![image("linux", "amd64", 7)]);
    untimed.last_updated = None;
    let listed = listing.on_page("httpd", &Response { count: 1, results: vec![untimed] });
    assert_eq!(listed.lines[2], row("7 B", "linux", "amd64", "", "old"));
}

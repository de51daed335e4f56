//! Documentation pages of the static web export: the page template, the
//! index page, the sitemap, and the rewriting of links between pages.

use vstd::prelude::*;

use crate::text::{push_str, push_string};

verus! {

/// Metadata for a single documentation page.
#[derive(Clone, Copy, Debug)]
pub struct DocMeta {
    pub slug: &'static str,
    pub title: &'static str,
    pub description: &'static str,
}

/// The documentation pages, in order, as (slug, title, description).
pub open spec fn doc_pages_spec() -> Seq<(Seq<char>, Seq<char>, Seq<char>)> {
    seq![
        (
            "protocol-mapping"@,
            "Protocol Mapping"@,
            "Complete BLE protocol specification — packet formats, command encoding tables, and notification protocol."@,
        ),
        (
            "architecture"@,
            "Architecture"@,
            "Crate dependency graph, BLE state machine, GATT discovery flow, and characteristic map."@,
        ),
        (
            "reverse-engineering"@,
            "Reverse Engineering Guide"@,
            "RE methodology, GATT enumeration, traffic capture, tools, and security considerations."@,
        ),
        (
            "firmware-analysis"@,
            "Firmware Analysis"@,
            "MCU binary string analysis, AT command discovery, and hardware architecture from firmware."@,
        ),
        (
            "hardware-teardown"@,
            "Hardware Teardown"@,
            "FCC filings, patents, component supply chain, and WiSA wireless architecture."@,
        ),
    ]
}

pub open spec fn meta_view(m: DocMeta) -> (Seq<char>, Seq<char>, Seq<char>) {
    (m.slug@, m.title@, m.description@)
}

/// Ordered registry of all documentation pages.
pub fn doc_pages() -> (r: Vec<DocMeta>)
    ensures
        r@.len() == doc_pages_spec().len(),
        forall|i: int| 0 <= i < r@.len() ==> meta_view(#[trigger] r@[i]) == doc_pages_spec()[i],
{
    let r = vec![
        DocMeta {
            slug: "protocol-mapping",
            title: "Protocol Mapping",
            description: "Complete BLE protocol specification — packet formats, command encoding tables, and notification protocol.",
        },
        DocMeta {
            slug: "architecture",
            title: "Architecture",
            description: "Crate dependency graph, BLE state machine, GATT discovery flow, and characteristic map.",
        },
        DocMeta {
            slug: "reverse-engineering",
            title: "Reverse Engineering Guide",
            description: "RE methodology, GATT enumeration, traffic capture, tools, and security considerations.",
        },
        DocMeta {
            slug: "firmware-analysis",
            title: "Firmware Analysis",
            description: "MCU binary string analysis, AT command discovery, and hardware architecture from firmware.",
        },
        DocMeta {
            slug: "hardware-teardown",
            title: "Hardware Teardown",
            description: "FCC filings, patents, component supply chain, and WiSA wireless architecture.",
        },
    ];
    assert(r@.len() == 5);
    r
}

// ============================================================================
// Page template
// ============================================================================

/// Piece 0 of the documentation page template.
pub const DOC_PAGE_0: &'static str = r##"<!DOCTYPE html>
<html lang="en">
<head>
    <meta charset="UTF-8">
    <meta name="viewport" content="width=device-width, initial-scale=1.0">
    <title>"##;

/// Piece 1 of the documentation page template.
pub const DOC_PAGE_1: &'static str = r##" — StealthTech Docs</title>
    <meta name="description" content=""##;

/// Piece 2 of the documentation page template.
pub const DOC_PAGE_2: &'static str = r##"">
    <link rel="canonical" href="https://stealthtech.app/docs/"##;

/// Piece 3 of the documentation page template.
pub const DOC_PAGE_3: &'static str = r##".html">
    <meta property="og:title" content=""##;

/// Piece 4 of the documentation page template.
pub const DOC_PAGE_4: &'static str = r##" — StealthTech Docs">
    <meta property="og:description" content=""##;

/// Piece 5 of the documentation page template.
pub const DOC_PAGE_5: &'static str = r##"">
    <meta property="og:type" content="article">
    <meta property="og:url" content="https://stealthtech.app/docs/"##;

/// Piece 6 of the documentation page template.
pub const DOC_PAGE_6: &'static str = r##".html">
    <meta property="og:site_name" content="StealthTech">
    <link rel="stylesheet" href="../style.css">
    <link rel="icon" href="../favicon.svg" type="image/svg+xml">
    <meta name="theme-color" content="#0071e3" media="(prefers-color-scheme: light)">
    <meta name="theme-color" content="#0a84ff" media="(prefers-color-scheme: dark)">
</head>
<body>
    <header>
        <div class="header-left">
            <a href="/" class="header-home">StealthTech</a>
            <span class="subtitle">Docs</span>
        </div>
        <div class="header-right">
            <a class="docs-link" href="/docs/" title="All documentation">Index</a>
            <a class="github-link" href="https://github.com/jackspirou/libstealthtech" target="_blank" rel="noopener" title="View source on GitHub" aria-label="View source on GitHub">
                <svg width="20" height="20" viewBox="0 0 16 16" fill="currentColor"><path d="M8 0C3.58 0 0 3.58 0 8c0 3.54 2.29 6.53 5.47 7.59.4.07.55-.17.55-.38 0-.19-.01-.82-.01-1.49-2.01.37-2.53-.49-2.69-.94-.09-.23-.48-.94-.82-1.13-.28-.15-.68-.52-.01-.53.63-.01 1.08.58 1.23.82.72 1.21 1.87.87 2.33.66.07-.52.28-.87.51-1.07-1.78-.2-3.64-.89-3.64-3.95 0-.87.31-1.59.82-2.15-.08-.2-.36-1.02.08-2.12 0 0 .67-.21 2.2.82.64-.18 1.32-.27 2-.27s1.36.09 2 .27c1.53-1.04 2.2-.82 2.2-.82.44 1.1.16 1.92.08 2.12.51.56.82 1.27.82 2.15 0 3.07-1.87 3.75-3.65 3.95.29.25.54.73.54 1.48 0 1.07-.01 1.93-.01 2.2 0 .21.15.46.55.38A8.01 8.01 0 0 0 16 8c0-4.42-3.58-8-8-8z"/></svg>
            </a>
            <button class="header-icon-btn" id="theme-toggle" title="Toggle theme" aria-label="Toggle theme">
                <span id="theme-icon">&#9788;</span>
            </button>
        </div>
    </header>
    <main class="doc-content">
        <article>
"##;

/// Piece 7 of the documentation page template.
pub const DOC_PAGE_7: &'static str = r##"
        </article>
    </main>
    <script>
    (function() {
        var K = "stealthtech-theme", T = ["auto","light","dark"];
        var i = Math.max(0, T.indexOf(localStorage.getItem(K) || "auto"));
        function a() {
            var t = T[i];
            if (t === "auto") document.documentElement.removeAttribute("data-theme");
            else document.documentElement.setAttribute("data-theme", t);
            document.getElementById("theme-icon").textContent = t === "auto" ? "\u2699" : t === "light" ? "\u2600" : "\u263E";
            localStorage.setItem(K, t);
        }
        a();
        document.getElementById("theme-toggle").addEventListener("click", function() { i = (i + 1) % T.length; a(); });
    })();
    </script>
</body>
</html>"##;

/// The documentation index page before its cards.
pub const INDEX_HEAD: &'static str = r##"<!DOCTYPE html>
<html lang="en">
<head>
    <meta charset="UTF-8">
    <meta name="viewport" content="width=device-width, initial-scale=1.0">
    <title>Documentation — StealthTech</title>
    <meta name="description" content="Technical documentation for the StealthTech Sound + Charge open-source project — BLE protocol, architecture, firmware analysis, and more.">
    <link rel="canonical" href="https://stealthtech.app/docs/">
    <meta property="og:title" content="Documentation — StealthTech">
    <meta property="og:description" content="Technical documentation for the StealthTech Sound + Charge open-source project.">
    <meta property="og:type" content="website">
    <meta property="og:url" content="https://stealthtech.app/docs/">
    <meta property="og:site_name" content="StealthTech">
    <link rel="stylesheet" href="../style.css">
    <link rel="icon" href="../favicon.svg" type="image/svg+xml">
    <meta name="theme-color" content="#0071e3" media="(prefers-color-scheme: light)">
    <meta name="theme-color" content="#0a84ff" media="(prefers-color-scheme: dark)">
</head>
<body>
    <header>
        <div class="header-left">
            <a href="/" class="header-home">StealthTech</a>
            <span class="subtitle">Docs</span>
        </div>
        <div class="header-right">
            <a class="github-link" href="https://github.com/jackspirou/libstealthtech" target="_blank" rel="noopener" title="View source on GitHub" aria-label="View source on GitHub">
                <svg width="20" height="20" viewBox="0 0 16 16" fill="currentColor"><path d="M8 0C3.58 0 0 3.58 0 8c0 3.54 2.29 6.53 5.47 7.59.4.07.55-.17.55-.38 0-.19-.01-.82-.01-1.49-2.01.37-2.53-.49-2.69-.94-.09-.23-.48-.94-.82-1.13-.28-.15-.68-.52-.01-.53.63-.01 1.08.58 1.23.82.72 1.21 1.87.87 2.33.66.07-.52.28-.87.51-1.07-1.78-.2-3.64-.89-3.64-3.95 0-.87.31-1.59.82-2.15-.08-.2-.36-1.02.08-2.12 0 0 .67-.21 2.2.82.64-.18 1.32-.27 2-.27s1.36.09 2 .27c1.53-1.04 2.2-.82 2.2-.82.44 1.1.16 1.92.08 2.12.51.56.82 1.27.82 2.15 0 3.07-1.87 3.75-3.65 3.95.29.25.54.73.54 1.48 0 1.07-.01 1.93-.01 2.2 0 .21.15.46.55.38A8.01 8.01 0 0 0 16 8c0-4.42-3.58-8-8-8z"/></svg>
            </a>
            <button class="header-icon-btn" id="theme-toggle" title="Toggle theme" aria-label="Toggle theme">
                <span id="theme-icon">&#9788;</span>
            </button>
        </div>
    </header>
    <main class="doc-content">
        <h1>Documentation</h1>
        <p>Technical documentation for the Lovesac Sactionals StealthTech Sound + Charge open-source project. Learn how the BLE protocol works, explore the Rust implementation, and contribute to reverse engineering efforts.</p>
        <div class="doc-index">
"##;

/// The documentation index page after its cards.
pub const INDEX_TAIL: &'static str = r##"        </div>
    </main>
    <script>
    (function() {
        var K = "stealthtech-theme", T = ["auto","light","dark"];
        var i = Math.max(0, T.indexOf(localStorage.getItem(K) || "auto"));
        function a() {
            var t = T[i];
            if (t === "auto") document.documentElement.removeAttribute("data-theme");
            else document.documentElement.setAttribute("data-theme", t);
            document.getElementById("theme-icon").textContent = t === "auto" ? "\u2699" : t === "light" ? "\u2600" : "\u263E";
            localStorage.setItem(K, t);
        }
        a();
        document.getElementById("theme-toggle").addEventListener("click", function() { i = (i + 1) % T.length; a(); });
    })();
    </script>
</body>
</html>"##;

/// A complete documentation page: the rendered body wrapped in the site's
/// document with title, description, canonical URL, styling and navigation.
pub open spec fn doc_page_spec(slug: Seq<char>, title: Seq<char>, description: Seq<char>, body: Seq<char>) -> Seq<char> {
    DOC_PAGE_0@ + title + DOC_PAGE_1@ + description + DOC_PAGE_2@ + slug + DOC_PAGE_3@ + title + DOC_PAGE_4@ + description + DOC_PAGE_5@ + slug + DOC_PAGE_6@ + body + DOC_PAGE_7@
}

/// Wrap rendered HTML body in a complete document with styling and navigation.
pub fn doc_page_html(slug: &str, title: &str, description: &str, body: &str) -> (r: String)
    ensures
        r@ == doc_page_spec(slug@, title@, description@, body@),
{
    let mut s = String::new();
    push_str(&mut s, DOC_PAGE_0);
    push_str(&mut s, title);
    push_str(&mut s, DOC_PAGE_1);
    push_str(&mut s, description);
    push_str(&mut s, DOC_PAGE_2);
    push_str(&mut s, slug);
    push_str(&mut s, DOC_PAGE_3);
    push_str(&mut s, title);
    push_str(&mut s, DOC_PAGE_4);
    push_str(&mut s, description);
    push_str(&mut s, DOC_PAGE_5);
    push_str(&mut s, slug);
    push_str(&mut s, DOC_PAGE_6);
    push_str(&mut s, body);
    push_str(&mut s, DOC_PAGE_7);
    assert(s@ =~= doc_page_spec(slug@, title@, description@, body@));
    s
}

// ============================================================================
// Links between pages
// ============================================================================

/// `html` with the links to every page's Markdown file (`<slug>.md`)
/// rewritten to its HTML page (`<slug>.html`), page by page in order.
pub open spec fn rewritten_links(html: Seq<char>, pages: Seq<(Seq<char>, Seq<char>, Seq<char>)>) -> Seq<char>
    decreases pages.len(),
{
    if pages.len() == 0 {
        html
    } else {
        let slug = pages.last().0;
        crate::text::replaced(
            rewritten_links(html, pages.drop_last()),
            slug + ".md"@,
            slug + ".html"@,
        )
    }
}

/// Rewrite inter-doc `.md` links to `.html` in rendered HTML.
pub fn rewrite_doc_links(html: &str) -> (r: String)
    ensures
        r@ == rewritten_links(html@, doc_pages_spec()),
{
    let pages = doc_pages();
    let mut result = String::from_str(html);
    let mut i: usize = 0;
    while i < pages.len()
        invariant
            pages@.len() == doc_pages_spec().len(),
            forall|j: int| 0 <= j < pages@.len() ==> meta_view(#[trigger] pages@[j]) == doc_pages_spec()[j],
            i <= pages@.len(),
            result@ == rewritten_links(html@, doc_pages_spec().take(i as int)),
        decreases pages@.len() - i,
    {
        let meta = pages[i];
        let mut md_link = String::from_str(meta.slug);
        push_str(&mut md_link, ".md");
        let mut html_link = String::from_str(meta.slug);
        push_str(&mut html_link, ".html");
        assert(meta_view(pages@[i as int]) == doc_pages_spec()[i as int]);
        assert(md_link@.len() > 0) by {
            assert(".md"@.len() == 3) by {
                reveal_strlit(".md");
            }
        }
        result = crate::text::replace_all(result.as_str(), md_link.as_str(), html_link.as_str());
        proof {
            assert(doc_pages_spec().take(i + 1).drop_last() =~= doc_pages_spec().take(i as int));
        }
        i = i + 1;
    }
    proof {
        assert(doc_pages_spec().take(pages@.len() as int) =~= doc_pages_spec());
    }
    result
}

// ============================================================================
// Markdown
// ============================================================================

/// What `pulldown_cmark` renders for a Markdown text with tables,
/// strikethrough and heading attributes enabled.
pub uninterp spec fn markdown_html(markdown: Seq<char>) -> Seq<char>;

/// Convert Markdown text to HTML. Calls `pulldown_cmark::Parser::new_ext`
/// with tables, strikethrough and heading attributes enabled, and
/// `pulldown_cmark::html::push_html` into an empty string; the result is the
/// named `markdown_html` of the text, a function of the text alone.
#[verifier::external_body]
fn markdown_to_html(markdown: &str) -> (r: String)
    ensures
        r@ == markdown_html(markdown@),
{
    let options = pulldown_cmark::Options::ENABLE_TABLES
        | pulldown_cmark::Options::ENABLE_STRIKETHROUGH
        | pulldown_cmark::Options::ENABLE_HEADING_ATTRIBUTES;
    let parser = pulldown_cmark::Parser::new_ext(markdown, options);
    let mut output = String::new();
    pulldown_cmark::html::push_html(&mut output, parser);
    output
}

/// Renders one documentation page from its Markdown: the file name
/// `<slug>.html` and the complete HTML page, whose body is the rendered
/// Markdown with inter-doc links rewritten.
pub fn render_doc_page(meta: &DocMeta, markdown: &str) -> (r: (String, String))
    ensures
        r.0@ == meta.slug@ + ".html"@,
        r.1@ == doc_page_spec(
            meta.slug@,
            meta.title@,
            meta.description@,
            rewritten_links(markdown_html(markdown@), doc_pages_spec()),
        ),
{
    let body = markdown_to_html(markdown);
    let body = rewrite_doc_links(body.as_str());
    let html = doc_page_html(meta.slug, meta.title, meta.description, body.as_str());
    let mut name = String::from_str(meta.slug);
    push_str(&mut name, ".html");
    (name, html)
}

// ============================================================================
// Index page and sitemap
// ============================================================================

/// The index card of one page.
pub open spec fn card_spec(p: (Seq<char>, Seq<char>, Seq<char>)) -> Seq<char> {
    "        <a class=\"doc-index-card\" href=\""@ + p.0 + ".html\">\n            <h3>"@ + p.1
        + "</h3>\n            <p>"@ + p.2 + "</p>\n        </a>\n"@
}

/// The index cards of the pages, in order.
pub open spec fn cards_spec(pages: Seq<(Seq<char>, Seq<char>, Seq<char>)>) -> Seq<char>
    decreases pages.len(),
{
    if pages.len() == 0 {
        Seq::empty()
    } else {
        cards_spec(pages.drop_last()) + card_spec(pages.last())
    }
}

/// Generate the documentation index page: one card per page, linking to it
/// with its title and description.
pub fn render_index() -> (r: String)
    ensures
        r@ == INDEX_HEAD@ + cards_spec(doc_pages_spec()) + INDEX_TAIL@,
{
    let pages = doc_pages();
    let mut cards = String::new();
    let mut i: usize = 0;
    while i < pages.len()
        invariant
            pages@.len() == doc_pages_spec().len(),
            forall|j: int| 0 <= j < pages@.len() ==> meta_view(#[trigger] pages@[j]) == doc_pages_spec()[j],
            i <= pages@.len(),
            cards@ == cards_spec(doc_pages_spec().take(i as int)),
        decreases pages@.len() - i,
    {
        let meta = pages[i];
        assert(meta_view(pages@[i as int]) == doc_pages_spec()[i as int]);
        push_str(&mut cards, "        <a class=\"doc-index-card\" href=\"");
        push_str(&mut cards, meta.slug);
        push_str(&mut cards, ".html\">\n            <h3>");
        push_str(&mut cards, meta.title);
        push_str(&mut cards, "</h3>\n            <p>");
        push_str(&mut cards, meta.description);
        push_str(&mut cards, "</p>\n        </a>\n");
        proof {
            assert(doc_pages_spec().take(i + 1).drop_last() =~= doc_pages_spec().take(i as int));
            assert(cards@ =~= cards_spec(doc_pages_spec().take(i + 1)));
        }
        i = i + 1;
    }
    proof {
        assert(doc_pages_spec().take(pages@.len() as int) =~= doc_pages_spec());
    }
    let mut s = String::from_str(INDEX_HEAD);
    push_string(&mut s, &cards);
    push_str(&mut s, INDEX_TAIL);
    s
}

/// The start of the sitemap: the app and the documentation index.
pub const SITEMAP_HEAD: &'static str = "<?xml version=\"1.0\" encoding=\"UTF-8\"?>\n<urlset xmlns=\"http://www.sitemaps.org/schemas/sitemap/0.9\">\n  <url>\n    <loc>https://stealthtech.app/</loc>\n    <changefreq>monthly</changefreq>\n    <priority>1.0</priority>\n  </url>\n  <url>\n    <loc>https://stealthtech.app/docs/</loc>\n    <changefreq>monthly</changefreq>\n    <priority>0.8</priority>\n  </url>\n";

/// The sitemap entry of one documentation page.
pub open spec fn sitemap_entry(slug: Seq<char>) -> Seq<char> {
    "  <url>\n    <loc>https://stealthtech.app/docs/"@ + slug
        + ".html</loc>\n    <changefreq>monthly</changefreq>\n    <priority>0.6</priority>\n  </url>\n"@
}

/// The sitemap entries of the pages, in order.
pub open spec fn sitemap_entries(pages: Seq<(Seq<char>, Seq<char>, Seq<char>)>) -> Seq<char>
    decreases pages.len(),
{
    if pages.len() == 0 {
        Seq::empty()
    } else {
        sitemap_entries(pages.drop_last()) + sitemap_entry(pages.last().0)
    }
}

/// Generate a sitemap.xml that includes the app and all documentation pages.
pub fn generate_sitemap() -> (r: String)
    ensures
        r@ == SITEMAP_HEAD@ + sitemap_entries(doc_pages_spec()) + "</urlset>\n"@,
{
    let pages = doc_pages();
    let mut xml = String::from_str(SITEMAP_HEAD);
    let mut i: usize = 0;
    while i < pages.len()
        invariant
            pages@.len() == doc_pages_spec().len(),
            forall|j: int| 0 <= j < pages@.len() ==> meta_view(#[trigger] pages@[j]) == doc_pages_spec()[j],
            i <= pages@.len(),
            xml@ == SITEMAP_HEAD@ + sitemap_entries(doc_pages_spec().take(i as int)),
        decreases pages@.len() - i,
    {
        let meta = pages[i];
        assert(meta_view(pages@[i as int]) == doc_pages_spec()[i as int]);
        push_str(&mut xml, "  <url>\n    <loc>https://stealthtech.app/docs/");
        push_str(&mut xml, meta.slug);
        push_str(
            &mut xml,
            ".html</loc>\n    <changefreq>monthly</changefreq>\n    <priority>0.6</priority>\n  </url>\n",
        );
        proof {
            assert(doc_pages_spec().take(i + 1).drop_last() =~= doc_pages_spec().take(i as int));
            assert(xml@ =~= SITEMAP_HEAD@ + sitemap_entries(doc_pages_spec().take(i + 1)));
        }
        i = i + 1;
    }
    proof {
        assert(doc_pages_spec().take(pages@.len() as int) =~= doc_pages_spec());
    }
    push_str(&mut xml, "</urlset>\n");
    xml
}

} // verus!

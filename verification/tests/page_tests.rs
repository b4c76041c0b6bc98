use tds_landing::markup::Node;
use tds_landing::page::{
    App, DetailCard, DetailSection, Footer, Hero, SocialLink, SocialLinksContainer, footer_text,
};
use tds_landing::icons::{AwardIconSVG, DiscordSVG, MatrixSVG};
use tds_landing::text::u32_to_string;

fn tag(n: &Node) -> &str {
    match n {
        Node::Element { tag, .. } => tag,
        Node::Text { .. } => "",
    }
}

fn kids(n: &Node) -> &[Node] {
    match n {
        Node::Element { children, .. } => children,
        Node::Text { .. } => &[],
    }
}

fn attr<'a>(n: &'a Node, name: &str) -> Option<&'a str> {
    match n {
        Node::Element { attrs, .. } => {
            attrs.iter().find(|a| a.name == name).map(|a| a.value.as_str())
        }
        Node::Text { .. } => None,
    }
}

fn text(n: &Node) -> &str {
    match n {
        Node::Text { text } => text,
        Node::Element { .. } => "",
    }
}

#[test]
fn head_has_exactly_one_favicon_link() {
    let page = App("0.1.0".to_string(), 2025);
    let favicons = page
        .head
        .iter()
        .filter(|n| attr(n, "href") == Some("/assets/favicon.ico"))
        .count();
    assert_eq!(favicons, 1);
}

#[test]
fn head_has_exactly_one_manifest_link() {
    let page = App("0.1.0".to_string(), 2025);
    let manifests = page
        .head
        .iter()
        .filter(|n| attr(n, "rel") == Some("manifest"))
        .count();
    assert_eq!(manifests, 1);
    let manifest = page
        .head
        .iter()
        .find(|n| attr(n, "rel") == Some("manifest"))
        .unwrap();
    assert_eq!(attr(manifest, "href"), Some("/assets/site.webmanifest"));
}

#[test]
fn head_has_required_stylesheet_links() {
    let page = App("0.1.0".to_string(), 2025);
    let sheets: Vec<&str> = page
        .head
        .iter()
        .filter(|n| attr(n, "rel") == Some("stylesheet"))
        .map(|n| attr(n, "href").unwrap())
        .collect();
    assert_eq!(sheets, vec!["/assets/main.css", "/assets/tailwind.css"]);
}

#[test]
fn head_links_in_order() {
    let page = App("0.1.0".to_string(), 2025);
    assert_eq!(page.head.len(), 7);
    for n in page.head.iter() {
        assert_eq!(tag(n), "link");
    }
    assert_eq!(attr(&page.head[0], "rel"), Some("icon"));
    assert_eq!(attr(&page.head[1], "rel"), Some("apple-touch-icon"));
    assert_eq!(attr(&page.head[1], "sizes"), Some("180x180"));
    assert_eq!(attr(&page.head[2], "type"), Some("image/png"));
    assert_eq!(attr(&page.head[2], "sizes"), Some("32x32"));
    assert_eq!(attr(&page.head[3], "sizes"), Some("16x16"));
    assert_eq!(page.body.len(), 3);
}

#[test]
fn hero_video_sources_are_ordered_by_codec() {
    let hero = Hero();
    assert_eq!(tag(&hero), "section");
    let docker = &kids(&hero)[0];
    let video = &kids(docker)[0];
    assert_eq!(tag(video), "video");
    let sources: Vec<&str> = kids(video).iter().map(|s| attr(s, "type").unwrap()).collect();
    assert_eq!(
        sources,
        vec![
            "video/webm; codecs=av1",
            "video/webm; codecs=vp9",
            "video/mp4; codecs=hvc1.1.6.L93.B0",
            "video/mp4; codecs=avc1.640028",
        ]
    );
    let srcs: Vec<&str> = kids(video).iter().map(|s| attr(s, "src").unwrap()).collect();
    assert_eq!(
        srcs,
        vec![
            "/assets/tds_promo.webm",
            "/assets/tds_promo_vp9.webm",
            "/assets/tds_promo_h265.mp4",
            "/assets/tds_promo_h264.mp4",
        ]
    );
}

#[test]
fn hero_video_has_poster() {
    let hero = Hero();
    let video = &kids(&kids(&hero)[0])[0];
    assert_eq!(attr(video, "poster"), Some("/assets/tds_promo_screen.png"));
    assert_eq!(attr(video, "autoplay"), Some("true"));
    assert_eq!(attr(video, "muted"), Some("true"));
    assert_eq!(attr(video, "loop"), Some("true"));
}

#[test]
fn hero_overlay_text() {
    let hero = Hero();
    let content = &kids(&hero)[1];
    let headings = kids(content);
    assert_eq!(tag(&headings[0]), "h1");
    assert_eq!(text(&kids(&headings[0])[0]), "TDS: Delta");
    assert_eq!(text(&kids(&headings[1])[0]), "The Ultimate 2D Arena Shooter");
    assert_eq!(text(&kids(&headings[2])[0]), "Coming spring 2025");
}

#[test]
fn detail_section_renders_four_cards_in_order() {
    let section = DetailSection();
    let rows = kids(&section);
    assert_eq!(rows.len(), 4);
    let titles: Vec<&str> = rows
        .iter()
        .map(|row| {
            let card = &kids(row)[0];
            let a = &kids(card)[1];
            let h5 = &kids(a)[0];
            text(&kids(h5)[0])
        })
        .collect();
    assert_eq!(
        titles,
        vec!["Multiplayer", "Cross Platform", "Multiple Game Modes", "Fast Paced"]
    );
}

#[test]
fn detail_section_orientation_alternates_starting_left() {
    let section = DetailSection();
    let rows = kids(&section);
    let row = "flex flex-col space-y-8 md:space-y-0 md:flex-row items-center";
    let row_reverse = "flex flex-col space-y-8 md:space-y-0 md:flex-row-reverse items-center";
    assert_eq!(attr(&rows[0], "class"), Some(row));
    assert_eq!(attr(&rows[1], "class"), Some(row_reverse));
    assert_eq!(attr(&rows[2], "class"), Some(row));
    assert_eq!(attr(&rows[3], "class"), Some(row_reverse));
}

#[test]
fn detail_card_shows_strings_verbatim_with_award_icon() {
    let card = DetailCard("<b>Title & Co</b>".to_string(), "any \"hook\" text".to_string());
    let svg = &kids(&card)[0];
    assert_eq!(tag(svg), "svg");
    assert_eq!(attr(svg, "viewBox"), Some("0 0 512 500.59"));
    let a = &kids(&card)[1];
    assert_eq!(text(&kids(&kids(a)[0])[0]), "<b>Title & Co</b>");
    assert_eq!(text(&kids(&kids(&card)[2])[0]), "any \"hook\" text");
}

#[test]
fn social_link_discord_key_renders_discord_icon() {
    let link = SocialLink("https://example.com/a".to_string(), "discord".to_string());
    let svg = &kids(&link)[0];
    assert_eq!(tag(svg), "svg");
    assert_eq!(attr(svg, "viewBox"), Some("0 0 512 388.049"));
    assert_eq!(kids(svg).len(), 1);
}

#[test]
fn social_link_matrix_key_renders_matrix_icon() {
    let link = SocialLink("https://example.com/b".to_string(), "matrix".to_string());
    let svg = &kids(&link)[0];
    assert_eq!(tag(svg), "svg");
    assert_eq!(attr(svg, "viewBox"), Some("0 0 32 32"));
    assert_eq!(kids(svg).len(), 3);
}

#[test]
fn social_link_unknown_key_falls_back_to_discord_icon() {
    let link = SocialLink("https://example.com/c".to_string(), "unknown".to_string());
    let svg = &kids(&link)[0];
    assert_eq!(attr(svg, "viewBox"), Some("0 0 512 388.049"));
}

#[test]
fn social_links_open_in_new_tab_with_safe_rel() {
    let container = SocialLinksContainer();
    let links = kids(&container);
    assert_eq!(links.len(), 2);
    for link in links {
        assert_eq!(tag(link), "a");
        assert_eq!(attr(link, "target"), Some("_blank"));
        assert_eq!(attr(link, "rel"), Some("noopener noreferrer"));
    }
    assert_eq!(attr(&links[0], "href"), Some("https://discord.gg/kV7csu8sDH"));
    assert_eq!(attr(&links[1], "href"), Some("https://matrix.to/#/#TDSD:matrix.org"));
}

#[test]
fn icon_renderers_are_fixed_graphics() {
    let m = MatrixSVG();
    assert_eq!(kids(&m).len(), 3);
    for p in kids(&m) {
        assert_eq!(tag(p), "path");
        assert!(attr(p, "d").is_some());
    }
    let d = DiscordSVG();
    assert_eq!(kids(&d).len(), 1);
    assert_eq!(attr(&kids(&d)[0], "fill-rule"), Some("nonzero"));
    let a = AwardIconSVG();
    assert_eq!(kids(&a).len(), 1);
    assert!(attr(&kids(&a)[0], "d").is_some());
}

#[test]
fn footer_text_formats_version_and_year() {
    assert_eq!(footer_text("0.1.0", 2025), "V0.1.0 - \u{00a9} 2025 tuxprint");
    assert_eq!(footer_text("1.2.3", 1999), "V1.2.3 - \u{00a9} 1999 tuxprint");
    assert_eq!(footer_text("", 0), "V - \u{00a9} 0 tuxprint");
}

#[test]
fn footer_node_holds_the_line() {
    let footer = Footer("0.1.0".to_string(), 2025);
    assert_eq!(tag(&footer), "div");
    let p = &kids(&footer)[0];
    assert_eq!(tag(p), "p");
    assert_eq!(attr(p, "class"), Some("text-center"));
    assert_eq!(text(&kids(p)[0]), "V0.1.0 - \u{00a9} 2025 tuxprint");
}

#[test]
fn year_renders_in_decimal() {
    assert_eq!(u32_to_string(0), "0");
    assert_eq!(u32_to_string(9), "9");
    assert_eq!(u32_to_string(10), "10");
    assert_eq!(u32_to_string(2025), "2025");
    assert_eq!(u32_to_string(4294967295), "4294967295");
}

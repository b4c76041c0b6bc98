//! The landing page itself: head links, the hero section with its
//! codec-fallback video, the feature cards, the social links and the footer.
//! Every component's contract pins the markup it produces.

use vstd::prelude::*;
use vstd::string::StringExecFns;
use crate::markup::{Attr, Node, text_node};
use crate::icons::{
    IconKey, icon_for_key, is_attr, is_matrix_svg, is_discord_svg, is_award_svg, attr, MatrixSVG,
    DiscordSVG, AwardIconSVG,
};
use crate::text::{dec_seq, u32_to_string};

verus! {

// ---------------------------------------------------------------------------
// Head links
// ---------------------------------------------------------------------------
/// A childless `link` element with a relation and a target.
pub open spec fn is_link(n: Node, rel: Seq<char>, href: Seq<char>) -> bool {
    &&& n.is_element()
    &&& n.tag() == "link"@
    &&& n.attrs().len() == 2
    &&& is_attr(n.attrs()[0], "rel"@, rel)
    &&& is_attr(n.attrs()[1], "href"@, href)
    &&& n.kids().len() == 0
}

/// A `link` element that also carries a size hint.
pub open spec fn is_sized_link(n: Node, rel: Seq<char>, sizes: Seq<char>, href: Seq<char>) -> bool {
    &&& n.is_element()
    &&& n.tag() == "link"@
    &&& n.attrs().len() == 3
    &&& is_attr(n.attrs()[0], "rel"@, rel)
    &&& is_attr(n.attrs()[1], "sizes"@, sizes)
    &&& is_attr(n.attrs()[2], "href"@, href)
    &&& n.kids().len() == 0
}

/// A `link` element that carries a media type and a size hint.
pub open spec fn is_typed_link(
    n: Node,
    rel: Seq<char>,
    ty: Seq<char>,
    sizes: Seq<char>,
    href: Seq<char>,
) -> bool {
    &&& n.is_element()
    &&& n.tag() == "link"@
    &&& n.attrs().len() == 4
    &&& is_attr(n.attrs()[0], "rel"@, rel)
    &&& is_attr(n.attrs()[1], "type"@, ty)
    &&& is_attr(n.attrs()[2], "sizes"@, sizes)
    &&& is_attr(n.attrs()[3], "href"@, href)
    &&& n.kids().len() == 0
}

fn link(rel: &str, href: &str) -> (n: Node)
    ensures
        is_link(n, rel@, href@),
{
    let mut attrs: Vec<Attr> = Vec::new();
    attrs.push(attr("rel", rel));
    attrs.push(attr("href", href));
    Node::Element { tag: "link".to_owned(), attrs, children: Vec::new() }
}

fn sized_link(rel: &str, sizes: &str, href: &str) -> (n: Node)
    ensures
        is_sized_link(n, rel@, sizes@, href@),
{
    let mut attrs: Vec<Attr> = Vec::new();
    attrs.push(attr("rel", rel));
    attrs.push(attr("sizes", sizes));
    attrs.push(attr("href", href));
    Node::Element { tag: "link".to_owned(), attrs, children: Vec::new() }
}

fn typed_link(rel: &str, ty: &str, sizes: &str, href: &str) -> (n: Node)
    ensures
        is_typed_link(n, rel@, ty@, sizes@, href@),
{
    let mut attrs: Vec<Attr> = Vec::new();
    attrs.push(attr("rel", rel));
    attrs.push(attr("type", ty));
    attrs.push(attr("sizes", sizes));
    attrs.push(attr("href", href));
    Node::Element { tag: "link".to_owned(), attrs, children: Vec::new() }
}

// ---------------------------------------------------------------------------
// Text-bearing headings
// ---------------------------------------------------------------------------
/// An element of tag `tag` with one class attribute whose sole child is the
/// text `t`.
pub open spec fn is_heading(n: Node, tag: Seq<char>, class: Seq<char>, t: Seq<char>) -> bool {
    &&& n.is_element()
    &&& n.tag() == tag
    &&& n.attrs().len() == 1
    &&& is_attr(n.attrs()[0], "class"@, class)
    &&& n.kids().len() == 1
    &&& n.kids()[0].is_text(t)
}

fn heading(tag: &str, class: &str, t: &str) -> (n: Node)
    ensures
        is_heading(n, tag@, class@, t@),
{
    let mut attrs: Vec<Attr> = Vec::new();
    attrs.push(attr("class", class));
    let mut children: Vec<Node> = Vec::new();
    children.push(text_node(t));
    Node::Element { tag: tag.to_owned(), attrs, children }
}

// ---------------------------------------------------------------------------
// Social links
// ---------------------------------------------------------------------------
/// An outbound social link: an anchor that opens `href` in a new tab with
/// safe `rel` attributes, holding exactly the icon chosen by `key`.
pub open spec fn is_social_link(n: Node, href: Seq<char>, key: IconKey) -> bool {
    &&& n.is_element()
    &&& n.tag() == "a"@
    &&& n.attrs().len() == 4
    &&& is_attr(n.attrs()[0], "href"@, href)
    &&& is_attr(n.attrs()[1], "class"@, "text-white hover:text-gray-200"@)
    &&& is_attr(n.attrs()[2], "target"@, "_blank"@)
    &&& is_attr(n.attrs()[3], "rel"@, "noopener noreferrer"@)
    &&& n.kids().len() == 1
    &&& (key == IconKey::Matrix ==> is_matrix_svg(n.kids()[0]))
    &&& (key == IconKey::Discord ==> is_discord_svg(n.kids()[0]))
}

/// A social link. The icon key resolves through the closed lookup of
/// `icon_for_key`: `"matrix"` gives the Matrix icon and any other key —
/// recognized or not — gives the Discord icon. The link always opens in a
/// new tab with `rel="noopener noreferrer"`.
#[allow(non_snake_case)]
pub fn SocialLink(href: String, icon: String) -> (n: Node)
    ensures
        is_social_link(n, href@, icon_for_key(icon@)),
        n.has_attr("target"@, "_blank"@),
        n.has_attr("rel"@, "noopener noreferrer"@),
{
    let icon_element = if icon == "matrix".to_owned() {
        MatrixSVG()
    } else {
        DiscordSVG()
    };
    let mut attrs: Vec<Attr> = Vec::new();
    attrs.push(Attr { name: "href".to_owned(), value: href });
    attrs.push(attr("class", "text-white hover:text-gray-200"));
    attrs.push(attr("target", "_blank"));
    attrs.push(attr("rel", "noopener noreferrer"));
    let mut children: Vec<Node> = Vec::new();
    children.push(icon_element);
    let n = Node::Element { tag: "a".to_owned(), attrs, children };
    proof {
        assert(n.attrs()[2].name@ == "target"@ && n.attrs()[2].value@ == "_blank"@);
        assert(n.attrs()[3].name@ == "rel"@ && n.attrs()[3].value@ == "noopener noreferrer"@);
    }
    n
}

/// The fixed pair of social links, Discord then Matrix, side by side.
pub open spec fn is_social_links_container(n: Node) -> bool {
    &&& n.is_element()
    &&& n.tag() == "div"@
    &&& n.attrs().len() == 2
    &&& is_attr(n.attrs()[0], "class"@, "flex space-x-8 max-w-xs mx-auto justify-center"@)
    &&& is_attr(n.attrs()[1], "style"@, "margin-top: 4rem;"@)
    &&& n.kids().len() == 2
    &&& is_social_link(n.kids()[0], "https://discord.gg/kV7csu8sDH"@, IconKey::Discord)
    &&& is_social_link(n.kids()[1], "https://matrix.to/#/#TDSD:matrix.org"@, IconKey::Matrix)
}

/// The row of the page's two outbound social links.
#[allow(non_snake_case)]
pub fn SocialLinksContainer() -> (n: Node)
    ensures
        is_social_links_container(n),
{
    proof {
        reveal_strlit("discord");
        reveal_strlit("matrix");
        assert("discord"@.len() == 7);
        assert("matrix"@.len() == 6);
        assert(icon_for_key("discord"@) == IconKey::Discord);
    }
    let mut attrs: Vec<Attr> = Vec::new();
    attrs.push(attr("class", "flex space-x-8 max-w-xs mx-auto justify-center"));
    attrs.push(attr("style", "margin-top: 4rem;"));
    let mut children: Vec<Node> = Vec::new();
    children.push(SocialLink("https://discord.gg/kV7csu8sDH".to_owned(), "discord".to_owned()));
    children.push(SocialLink("https://matrix.to/#/#TDSD:matrix.org".to_owned(), "matrix".to_owned()));
    Node::Element { tag: "div".to_owned(), attrs, children }
}

// ---------------------------------------------------------------------------
// Hero section
// ---------------------------------------------------------------------------
/// A childless `source` element carrying a MIME/codec tag and a file path.
pub open spec fn is_source(n: Node, ty: Seq<char>, src: Seq<char>) -> bool {
    &&& n.is_element()
    &&& n.tag() == "source"@
    &&& n.attrs().len() == 2
    &&& is_attr(n.attrs()[0], "type"@, ty)
    &&& is_attr(n.attrs()[1], "src"@, src)
    &&& n.kids().len() == 0
}

fn source(ty: &str, src: &str) -> (n: Node)
    ensures
        is_source(n, ty@, src@),
{
    let mut attrs: Vec<Attr> = Vec::new();
    attrs.push(attr("type", ty));
    attrs.push(attr("src", src));
    Node::Element { tag: "source".to_owned(), attrs, children: Vec::new() }
}

/// The hero's background video: looping, autoplaying, muted, with a poster
/// fallback and its codec sources ordered AV1, VP9, H.265, H.264 — the
/// playback host picks the first one it supports.
pub open spec fn is_hero_video(n: Node) -> bool {
    &&& n.is_element()
    &&& n.tag() == "video"@
    &&& n.attrs().len() == 7
    &&& is_attr(n.attrs()[0], "class"@, "min-w-full min-h-full absolute object-cover"@)
    &&& is_attr(n.attrs()[1], "autoplay"@, "true"@)
    &&& is_attr(n.attrs()[2], "muted"@, "true"@)
    &&& is_attr(n.attrs()[3], "loop"@, "true"@)
    &&& is_attr(n.attrs()[4], "playsinline"@, "true"@)
    &&& is_attr(n.attrs()[5], "preload"@, "auto"@)
    &&& is_attr(n.attrs()[6], "poster"@, "/assets/tds_promo_screen.png"@)
    &&& n.has_attr_named("poster"@)
    &&& n.kids().len() == 4
    &&& is_source(n.kids()[0], "video/webm; codecs=av1"@, "/assets/tds_promo.webm"@)
    &&& is_source(n.kids()[1], "video/webm; codecs=vp9"@, "/assets/tds_promo_vp9.webm"@)
    &&& is_source(n.kids()[2], "video/mp4; codecs=hvc1.1.6.L93.B0"@, "/assets/tds_promo_h265.mp4"@)
    &&& is_source(n.kids()[3], "video/mp4; codecs=avc1.640028"@, "/assets/tds_promo_h264.mp4"@)
}

fn hero_video() -> (n: Node)
    ensures
        is_hero_video(n),
{
    let mut attrs: Vec<Attr> = Vec::new();
    attrs.push(attr("class", "min-w-full min-h-full absolute object-cover"));
    attrs.push(attr("autoplay", "true"));
    attrs.push(attr("muted", "true"));
    attrs.push(attr("loop", "true"));
    attrs.push(attr("playsinline", "true"));
    attrs.push(attr("preload", "auto"));
    attrs.push(attr("poster", "/assets/tds_promo_screen.png"));
    let mut children: Vec<Node> = Vec::new();
    children.push(source("video/webm; codecs=av1", "/assets/tds_promo.webm"));
    children.push(source("video/webm; codecs=vp9", "/assets/tds_promo_vp9.webm"));
    children.push(source("video/mp4; codecs=hvc1.1.6.L93.B0", "/assets/tds_promo_h265.mp4"));
    children.push(source("video/mp4; codecs=avc1.640028", "/assets/tds_promo_h264.mp4"));
    let n = Node::Element { tag: "video".to_owned(), attrs, children };
    proof {
        assert(n.attrs()[6].name@ == "poster"@);
    }
    n
}

/// The full-screen hero: the background video in its docker, overlaid with
/// the title, subtitle, tagline and the social-links row.
pub open spec fn is_hero(n: Node) -> bool {
    &&& n.is_element()
    &&& n.tag() == "section"@
    &&& n.attrs().len() == 1
    &&& is_attr(
        n.attrs()[0],
        "class"@,
        "relative h-screen flex flex-col items-center justify-center text-center text-white py-0 px-3"@,
    )
    &&& n.kids().len() == 2
    &&& {
        let docker = n.kids()[0];
        &&& docker.is_element()
        &&& docker.tag() == "div"@
        &&& docker.attrs().len() == 1
        &&& is_attr(
            docker.attrs()[0],
            "class"@,
            "video-docker absolute top-0 left-0 w-full h-full overflow-hidden"@,
        )
        &&& docker.kids().len() == 1
        &&& is_hero_video(docker.kids()[0])
    }
    &&& {
        let content = n.kids()[1];
        &&& content.is_element()
        &&& content.tag() == "div"@
        &&& content.attrs().len() == 1
        &&& is_attr(content.attrs()[0], "class"@, "video-content space-y-2"@)
        &&& content.kids().len() == 4
        &&& is_heading(content.kids()[0], "h1"@, "font-light text-7xl sm:text-9xl"@, "TDS: Delta"@)
        &&& is_heading(
            content.kids()[1],
            "h3"@,
            "font-light text-5xl"@,
            "The Ultimate 2D Arena Shooter"@,
        )
        &&& is_heading(content.kids()[2], "h3"@, "font-light text-3xl"@, "Coming spring 2025"@)
        &&& is_social_links_container(content.kids()[3])
    }
}

/// The hero section.
#[allow(non_snake_case)]
pub fn Hero() -> (n: Node)
    ensures
        is_hero(n),
{
    let mut docker_attrs: Vec<Attr> = Vec::new();
    docker_attrs.push(attr("class", "video-docker absolute top-0 left-0 w-full h-full overflow-hidden"));
    let mut docker_children: Vec<Node> = Vec::new();
    docker_children.push(hero_video());
    let docker = Node::Element {
        tag: "div".to_owned(),
        attrs: docker_attrs,
        children: docker_children,
    };
    let mut content_attrs: Vec<Attr> = Vec::new();
    content_attrs.push(attr("class", "video-content space-y-2"));
    let mut content_children: Vec<Node> = Vec::new();
    content_children.push(heading("h1", "font-light text-7xl sm:text-9xl", "TDS: Delta"));
    content_children.push(heading("h3", "font-light text-5xl", "The Ultimate 2D Arena Shooter"));
    content_children.push(heading("h3", "font-light text-3xl", "Coming spring 2025"));
    content_children.push(SocialLinksContainer());
    let content = Node::Element {
        tag: "div".to_owned(),
        attrs: content_attrs,
        children: content_children,
    };
    let mut attrs: Vec<Attr> = Vec::new();
    attrs.push(attr(
        "class",
        "relative h-screen flex flex-col items-center justify-center text-center text-white py-0 px-3",
    ));
    let mut children: Vec<Node> = Vec::new();
    children.push(docker);
    children.push(content);
    Node::Element { tag: "section".to_owned(), attrs, children }
}

// ---------------------------------------------------------------------------
// Feature cards
// ---------------------------------------------------------------------------
/// A feature card: the award icon, a linked title and a one-sentence hook.
/// Both strings are displayed verbatim; any text is accepted.
pub open spec fn is_detail_card(n: Node, title: Seq<char>, hook: Seq<char>) -> bool {
    &&& n.is_element()
    &&& n.tag() == "div"@
    &&& n.attrs().len() == 1
    &&& is_attr(n.attrs()[0], "class"@, "max-w-lg p-6 rounded-lg shadow bg-gray-800 border-gray-700"@)
    &&& n.kids().len() == 3
    &&& is_award_svg(n.kids()[0])
    &&& {
        let a = n.kids()[1];
        &&& a.is_element()
        &&& a.tag() == "a"@
        &&& a.attrs().len() == 1
        &&& is_attr(a.attrs()[0], "href"@, "#"@)
        &&& a.kids().len() == 1
        &&& is_heading(a.kids()[0], "h5"@, "mb-2 text-5xl font-semibold text-white"@, title)
    }
    &&& is_heading(n.kids()[2], "p"@, "mb-3 text-3xl text-gray-500"@, hook)
}

/// One feature card.
#[allow(non_snake_case)]
pub fn DetailCard(title_text: String, hook: String) -> (n: Node)
    ensures
        is_detail_card(n, title_text@, hook@),
{
    let mut a_attrs: Vec<Attr> = Vec::new();
    a_attrs.push(attr("href", "#"));
    let mut a_children: Vec<Node> = Vec::new();
    a_children.push(heading("h5", "mb-2 text-5xl font-semibold text-white", title_text.as_str()));
    let a = Node::Element { tag: "a".to_owned(), attrs: a_attrs, children: a_children };
    let mut attrs: Vec<Attr> = Vec::new();
    attrs.push(attr("class", "max-w-lg p-6 rounded-lg shadow bg-gray-800 border-gray-700"));
    let mut children: Vec<Node> = Vec::new();
    children.push(AwardIconSVG());
    children.push(a);
    children.push(heading("p", "mb-3 text-3xl text-gray-500", hook.as_str()));
    Node::Element { tag: "div".to_owned(), attrs, children }
}

/// Which side a feature card leans to.
#[derive(Clone, Copy, Debug, PartialEq, Eq, Structural)]
pub enum Orientation {
    Left,
    Right,
}

/// Cards alternate orientation, starting left.
pub open spec fn card_orientation(i: int) -> Orientation {
    if i % 2 == 0 {
        Orientation::Left
    } else {
        Orientation::Right
    }
}

/// Law: the feature-card orientation starts left and alternates from each
/// row to the next.
pub proof fn lemma_card_orientation_alternates(i: int)
    requires
        0 <= i,
    ensures
        card_orientation(0) == Orientation::Left,
        card_orientation(i + 1) != card_orientation(i),
{
}

/// The wrapper class of a card row for its orientation.
pub open spec fn row_class(o: Orientation) -> Seq<char> {
    if o == Orientation::Left {
        "flex flex-col space-y-8 md:space-y-0 md:flex-row items-center"@
    } else {
        "flex flex-col space-y-8 md:space-y-0 md:flex-row-reverse items-center"@
    }
}

/// The fixed card titles, in page order.
pub open spec fn card_title(i: int) -> Seq<char> {
    if i == 0 {
        "Multiplayer"@
    } else if i == 1 {
        "Cross Platform"@
    } else if i == 2 {
        "Multiple Game Modes"@
    } else {
        "Fast Paced"@
    }
}

/// The fixed card hooks, in page order.
pub open spec fn card_hook(i: int) -> Seq<char> {
    if i == 0 {
        "TDS: Delta supports up to 16 players in a single match."@
    } else if i == 1 {
        "TDS: Delta will be available on Windows, macOS, and Linux."@
    } else if i == 2 {
        "TDS: Delta features multiple game modes, including Capture the Flag, Deathmatch, Zombies,and more."@
    } else {
        "TDS: Delta features fast paced Arena Shooter gameplay."@
    }
}

/// One row of the detail section: a wrapper div, oriented for its position,
/// holding exactly the card for that position.
pub open spec fn is_card_row(n: Node, i: int) -> bool {
    &&& n.is_element()
    &&& n.tag() == "div"@
    &&& n.attrs().len() == 1
    &&& is_attr(n.attrs()[0], "class"@, row_class(card_orientation(i)))
    &&& n.kids().len() == 1
    &&& is_detail_card(n.kids()[0], card_title(i), card_hook(i))
}

fn card_row(title: &str, hook: &str, reverse: bool) -> (n: Node)
    ensures
        n.is_element(),
        n.tag() == "div"@,
        n.attrs().len() == 1,
        is_attr(
            n.attrs()[0],
            "class"@,
            if reverse {
                row_class(Orientation::Right)
            } else {
                row_class(Orientation::Left)
            },
        ),
        n.kids().len() == 1,
        is_detail_card(n.kids()[0], title@, hook@),
{
    let mut attrs: Vec<Attr> = Vec::new();
    if reverse {
        attrs.push(attr("class", "flex flex-col space-y-8 md:space-y-0 md:flex-row-reverse items-center"));
    } else {
        attrs.push(attr("class", "flex flex-col space-y-8 md:space-y-0 md:flex-row items-center"));
    }
    let mut children: Vec<Node> = Vec::new();
    children.push(DetailCard(title.to_owned(), hook.to_owned()));
    Node::Element { tag: "div".to_owned(), attrs, children }
}

/// The detail section: exactly four feature cards, in fixed order —
/// Multiplayer, Cross Platform, Multiple Game Modes, Fast Paced — with
/// orientation alternating, starting left.
pub open spec fn is_detail_section(n: Node) -> bool {
    &&& n.is_element()
    &&& n.tag() == "section"@
    &&& n.attrs().len() == 1
    &&& is_attr(n.attrs()[0], "class"@, "space-y-8 py-8 px-4 max-w-5xl mx-auto"@)
    &&& n.kids().len() == 4
    &&& forall|i: int| 0 <= i < 4 ==> is_card_row(#[trigger] n.kids()[i], i)
}

/// The detail section.
#[allow(non_snake_case)]
pub fn DetailSection() -> (n: Node)
    ensures
        is_detail_section(n),
{
    let mut attrs: Vec<Attr> = Vec::new();
    attrs.push(attr("class", "space-y-8 py-8 px-4 max-w-5xl mx-auto"));
    let mut children: Vec<Node> = Vec::new();
    children.push(card_row(
        "Multiplayer",
        "TDS: Delta supports up to 16 players in a single match.",
        false,
    ));
    children.push(card_row(
        "Cross Platform",
        "TDS: Delta will be available on Windows, macOS, and Linux.",
        true,
    ));
    children.push(card_row(
        "Multiple Game Modes",
        "TDS: Delta features multiple game modes, including Capture the Flag, Deathmatch, Zombies,and more.",
        false,
    ));
    children.push(card_row(
        "Fast Paced",
        "TDS: Delta features fast paced Arena Shooter gameplay.",
        true,
    ));
    let n = Node::Element { tag: "section".to_owned(), attrs, children };
    proof {
        assert forall|i: int| 0 <= i < 4 implies is_card_row(#[trigger] n.kids()[i], i) by {
            if i == 0 {
                assert(is_card_row(n.kids()[0], 0));
            } else if i == 1 {
                assert(is_card_row(n.kids()[1], 1));
            } else if i == 2 {
                assert(is_card_row(n.kids()[2], 2));
            } else {
                assert(is_card_row(n.kids()[3], 3));
            }
        }
    }
    n
}

// ---------------------------------------------------------------------------
// Footer
// ---------------------------------------------------------------------------
/// The footer line: `V{version} - © {year} tuxprint`, with the year in
/// decimal.
pub open spec fn spec_footer_text(version: Seq<char>, year: nat) -> Seq<char> {
    "V"@ + version + " - \u{00a9} "@ + dec_seq(year) + " tuxprint"@
}

/// Build the footer line for a version string and a year.
pub fn footer_text(version: &str, year: u32) -> (r: String)
    ensures
        r@ == spec_footer_text(version@, year as nat),
{
    let mut r = "V".to_owned();
    r.append(version);
    r.append(" - \u{00a9} ");
    let y = u32_to_string(year);
    r.append(y.as_str());
    r.append(" tuxprint");
    proof {
        assert(r@ =~= spec_footer_text(version@, year as nat));
    }
    r
}

/// The footer: one centered line with the version and the copyright year.
pub open spec fn is_footer(n: Node, version: Seq<char>, year: nat) -> bool {
    &&& n.is_element()
    &&& n.tag() == "div"@
    &&& n.attrs().len() == 1
    &&& is_attr(n.attrs()[0], "class"@, "absolute left-0 w-full text-white py-4"@)
    &&& n.kids().len() == 1
    &&& is_heading(n.kids()[0], "p"@, "text-center"@, spec_footer_text(version, year))
}

/// The footer. The build-time version string and the render-time year are
/// supplied by the caller; querying the host clock is not this library's
/// business.
#[allow(non_snake_case)]
pub fn Footer(version: String, year: u32) -> (n: Node)
    ensures
        is_footer(n, version@, year as nat),
{
    let line = footer_text(version.as_str(), year);
    let mut attrs: Vec<Attr> = Vec::new();
    attrs.push(attr("class", "absolute left-0 w-full text-white py-4"));
    let mut children: Vec<Node> = Vec::new();
    children.push(heading("p", "text-center", line.as_str()));
    Node::Element { tag: "div".to_owned(), attrs, children }
}

// ---------------------------------------------------------------------------
// The page root
// ---------------------------------------------------------------------------
/// The whole page: the document-head links and the three mounted sections.
pub struct Page {
    pub head: Vec<Node>,
    pub body: Vec<Node>,
}

/// Assemble the page: seven head links — favicon, touch icon, two sized
/// icons, the web manifest and the two stylesheets — then the hero, the
/// detail section and the footer, in that order. The head holds exactly one
/// favicon link, exactly one manifest link, and its only stylesheet links
/// are the two required ones.
#[allow(non_snake_case)]
pub fn App(version: String, year: u32) -> (page: Page)
    ensures
        page.head@.len() == 7,
        is_link(page.head@[0], "icon"@, "/assets/favicon.ico"@),
        is_sized_link(page.head@[1], "apple-touch-icon"@, "180x180"@, "/assets/apple-touch-icon.png"@),
        is_typed_link(page.head@[2], "icon"@, "image/png"@, "32x32"@, "/assets/favicon-32x32.png"@),
        is_typed_link(page.head@[3], "icon"@, "image/png"@, "16x16"@, "/assets/favicon-16x16.png"@),
        is_link(page.head@[4], "manifest"@, "/assets/site.webmanifest"@),
        is_link(page.head@[5], "stylesheet"@, "/assets/main.css"@),
        is_link(page.head@[6], "stylesheet"@, "/assets/tailwind.css"@),
        forall|i: int|
            0 <= i < 7 && i != 0 ==> !(#[trigger] page.head@[i]).has_attr(
                "href"@,
                "/assets/favicon.ico"@,
            ),
        forall|i: int|
            0 <= i < 7 && i != 4 ==> !(#[trigger] page.head@[i]).has_attr("rel"@, "manifest"@),
        forall|i: int|
            0 <= i < 5 ==> !(#[trigger] page.head@[i]).has_attr("rel"@, "stylesheet"@),
        page.body@.len() == 3,
        is_hero(page.body@[0]),
        is_detail_section(page.body@[1]),
        is_footer(page.body@[2], version@, year as nat),
{
    let mut head: Vec<Node> = Vec::new();
    head.push(link("icon", "/assets/favicon.ico"));
    head.push(sized_link("apple-touch-icon", "180x180", "/assets/apple-touch-icon.png"));
    head.push(typed_link("icon", "image/png", "32x32", "/assets/favicon-32x32.png"));
    head.push(typed_link("icon", "image/png", "16x16", "/assets/favicon-16x16.png"));
    head.push(link("manifest", "/assets/site.webmanifest"));
    head.push(link("stylesheet", "/assets/main.css"));
    head.push(link("stylesheet", "/assets/tailwind.css"));
    let mut body: Vec<Node> = Vec::new();
    body.push(Hero());
    body.push(DetailSection());
    body.push(Footer(version, year));
    let page = Page { head, body };
    proof {
        reveal_strlit("rel");
        reveal_strlit("href");
        reveal_strlit("sizes");
        reveal_strlit("type");
        reveal_strlit("icon");
        reveal_strlit("apple-touch-icon");
        reveal_strlit("manifest");
        reveal_strlit("stylesheet");
        reveal_strlit("/assets/favicon.ico");
        reveal_strlit("/assets/apple-touch-icon.png");
        reveal_strlit("/assets/favicon-32x32.png");
        reveal_strlit("/assets/favicon-16x16.png");
        reveal_strlit("/assets/site.webmanifest");
        reveal_strlit("/assets/main.css");
        reveal_strlit("/assets/tailwind.css");
        reveal_strlit("image/png");
        reveal_strlit("180x180");
        reveal_strlit("32x32");
        reveal_strlit("16x16");
        assert("rel"@.len() == 3);
        assert("href"@.len() == 4);
        assert("sizes"@.len() == 5);
        assert("type"@[0] == 't');
        assert("href"@[0] == 'h');
        assert("type"@ != "href"@);
        assert("icon"@.len() == 4);
        assert("apple-touch-icon"@.len() == 16);
        assert("manifest"@.len() == 8);
        assert("stylesheet"@.len() == 10);
        assert("/assets/favicon.ico"@.len() == 19);
        assert("/assets/apple-touch-icon.png"@.len() == 28);
        assert("/assets/favicon-32x32.png"@.len() == 25);
        assert("/assets/favicon-16x16.png"@.len() == 25);
        assert("/assets/site.webmanifest"@.len() == 24);
        assert("/assets/main.css"@.len() == 16);
        assert("/assets/tailwind.css"@.len() == 20);
        assert forall|i: int|
            0 <= i < 7 && i != 0 implies !(#[trigger] page.head@[i]).has_attr(
            "href"@,
            "/assets/favicon.ico"@,
        ) by {
            if i == 1 {
                assert(!page.head@[1].has_attr("href"@, "/assets/favicon.ico"@));
            } else if i == 2 {
                assert(!page.head@[2].has_attr("href"@, "/assets/favicon.ico"@));
            } else if i == 3 {
                assert(!page.head@[3].has_attr("href"@, "/assets/favicon.ico"@));
            } else if i == 4 {
                assert(!page.head@[4].has_attr("href"@, "/assets/favicon.ico"@));
            } else if i == 5 {
                assert(!page.head@[5].has_attr("href"@, "/assets/favicon.ico"@));
            } else {
                assert(!page.head@[6].has_attr("href"@, "/assets/favicon.ico"@));
            }
        }
        assert forall|i: int|
            0 <= i < 7 && i != 4 implies !(#[trigger] page.head@[i]).has_attr(
            "rel"@,
            "manifest"@,
        ) by {
            if i == 0 {
                assert(!page.head@[0].has_attr("rel"@, "manifest"@));
            } else if i == 1 {
                assert(!page.head@[1].has_attr("rel"@, "manifest"@));
            } else if i == 2 {
                assert(!page.head@[2].has_attr("rel"@, "manifest"@));
            } else if i == 3 {
                assert(!page.head@[3].has_attr("rel"@, "manifest"@));
            } else if i == 5 {
                assert(!page.head@[5].has_attr("rel"@, "manifest"@));
            } else {
                assert(!page.head@[6].has_attr("rel"@, "manifest"@));
            }
        }
        assert forall|i: int| 0 <= i < 5 implies !(#[trigger] page.head@[i]).has_attr(
            "rel"@,
            "stylesheet"@,
        ) by {
            if i == 0 {
                assert(!page.head@[0].has_attr("rel"@, "stylesheet"@));
            } else if i == 1 {
                assert(!page.head@[1].has_attr("rel"@, "stylesheet"@));
            } else if i == 2 {
                assert(!page.head@[2].has_attr("rel"@, "stylesheet"@));
            } else if i == 3 {
                assert(!page.head@[3].has_attr("rel"@, "stylesheet"@));
            } else {
                assert(!page.head@[4].has_attr("rel"@, "stylesheet"@));
            }
        }
    }
    page
}

} // verus!

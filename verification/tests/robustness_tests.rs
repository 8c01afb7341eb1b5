use amzn_scraper::extract::{css_selection, parse_response, selector_fits, MAX_SELECTOR_CHARS};

struct Dice(u64);

impl Dice {
    fn roll(&mut self) -> u64 {
        self.0 = self.0.wrapping_mul(6364136223846793005).wrapping_add(1442695040888963407);
        self.0 >> 33
    }

    fn pick<'a>(&mut self, pool: &[&'a str]) -> &'a str {
        pool[(self.roll() % pool.len() as u64) as usize]
    }
}

const MARKUP: [&str; 64] = [
    "<html>", "</html>", "<head>", "</head>", "<body>", "</body>", "<p>", "</p>", "<div>",
    "</div>", "<span id=\"productTitle\">", "</span>", "<span class=\"a-price\">", "<span>",
    "<table>", "</table>", "<tr>", "<td>", "</td>", "</tr>", "<template>", "</template>",
    "<svg>", "</svg>", "<math>", "</math>", "<select>", "<option>", "</select>", "<b>", "</b>",
    "<i>", "</i>", "<a href=\"x\">", "</a>", "<textarea>", "</textarea>", "<title>", "</title>",
    "<script>", "</script>", "<style>", "</style>", "<!-- c -->", "<!DOCTYPE html>", "<?pi x?>",
    "<![CDATA[x]]>", "text", " ", "\n", "1,234", "&amp;", "&#0;", "&#x110000;", "&nosuch;", "\0",
    "<", ">", "</", "<p id=a id=b>", "<frameset>", "<form>", "<caption>", "<noscript>",
];

const SELECTOR: [&str; 48] = [
    "p", "div", "span", "*", "#productTitle", ".a-price", ":not(", ")", "(", " > ", " + ", " ~ ",
    " ", ",", ":nth-child(", "2", "2n+1", "odd", ":first-child", ":last-child", ":only-child",
    ":empty", ":root", ":link", ":hover", "::before", ":", "::", "[href]", "[href=x]", "[a~=b",
    "]", "[", "|", "!", "@", "$=", "^=", "\"", "'", "\\", "/*", "*/", "-", "+", "\u{e9}", "a:*",
    ":nth-last-of-type(",
];

fn markup(dice: &mut Dice, pieces: u64) -> String {
    let count = dice.roll() % pieces;
    (0..count).map(|_| dice.pick(&MARKUP)).collect()
}

fn selector(dice: &mut Dice) -> String {
    let count = dice.roll() % 12;
    let mut text = String::new();
    for _ in 0..count {
        let piece = dice.pick(&SELECTOR);
        if text.chars().count() + piece.chars().count() > MAX_SELECTOR_CHARS {
            break;
        }
        text.push_str(piece);
    }
    text
}

#[test]
fn markup_of_any_shape_is_handled() {
    let mut dice = Dice(3);
    for _ in 0..3000 {
        let body = markup(&mut dice, 40);
        let _ = parse_response(&body);
        let _ = css_selection(&body, "template > *");
    }
}

#[test]
fn selectors_of_any_shape_are_handled() {
    let mut dice = Dice(5);
    let body = "<html><body><div><p id=\"productTitle\">x</p><span class=\"a-price\">1</span>\
                <a href=\"x\">l</a><p></p></div></body></html>";
    for _ in 0..20000 {
        let text = selector(&mut dice);
        assert!(selector_fits(&text));
        let _ = css_selection(body, &text);
    }
}

#[test]
fn selectors_and_markup_of_any_shape_are_handled() {
    let mut dice = Dice(9);
    for _ in 0..3000 {
        let body = markup(&mut dice, 25);
        let text = selector(&mut dice);
        let _ = css_selection(&body, &text);
    }
}

#[test]
fn deeply_nested_markup_is_handled() {
    let mut body = "<div>".repeat(2_000);
    body.push_str("<p>deep</p>");
    assert!(matches!(
        css_selection(&body, "div div > p"),
        Ok(amzn_scraper::extract::Node::Text(text)) if text == "deep"
    ));
}

#[test]
fn deeply_nested_formatting_is_handled() {
    let mut body = "<b><i>".repeat(1_000);
    body.push_str("<p id=\"productTitle\">x</p>");
    let _ = parse_response(&body);
}

#[test]
fn deeply_nested_tables_are_handled() {
    let body = "<table><tr><td>".repeat(1_000);
    let _ = css_selection(&body, "td:nth-child(1) td ~ td, table + p");
}

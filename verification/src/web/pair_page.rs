//! The landing page of a pairing.

use vstd::prelude::*;
use crate::text::{has_infix, lemma_infix_of_concat};

verus! {

/// Part 1 of the page's fixed text.
pub const PAIR_PAGE_0: &'static str = r#"<!DOCTYPE html>
<html lang="en">
<head>
  <meta charset="UTF-8">
  <meta name="viewport" content="width=device-width, initial-scale=1.0">
  <title>Atem Pairing — "#;

/// Part 2 of the page's fixed text.
pub const PAIR_PAGE_1: &'static str = r#"</title>
  <style>
    body { font-family: -apple-system, BlinkMacSystemFont, 'Segoe UI', sans-serif; display: flex; justify-content: center; align-items: center; min-height: 100vh; margin: 0; background: #0a0a0a; color: #e0e0e0; }
    .card { background: #1a1a2e; border-radius: 16px; padding: 48px; text-align: center; max-width: 420px; box-shadow: 0 8px 32px rgba(0,0,0,0.4); }
    .code { font-size: 48px; font-weight: 700; letter-spacing: 4px; color: #00d4aa; margin: 24px 0; font-family: 'SF Mono', monospace; }
    .hostname { color: #888; font-size: 14px; margin-bottom: 32px; }
    .btn { display: inline-block; padding: 12px 32px; background: #00d4aa; color: #0a0a0a; border-radius: 8px; text-decoration: none; font-weight: 600; font-size: 16px; transition: background 0.2s; }
    .btn:hover { background: #00f5c4; }
    .download { margin-top: 24px; font-size: 13px; color: #666; }
    .download a { color: #00d4aa; }
    h2 { margin: 0 0 8px; font-size: 20px; color: #fff; }
    p { margin: 4px 0; font-size: 14px; color: #aaa; }
  </style>
</head>
<body>
  <div class="card">
    <h2>Atem Pairing</h2>
    <p>Enter this code in Astation to connect</p>
    <div class="code">"#;

/// Part 3 of the page's fixed text.
pub const PAIR_PAGE_2: &'static str = r#"</div>
    <div class="hostname">Host: "#;

/// Part 4 of the page's fixed text.
pub const PAIR_PAGE_3: &'static str = r#"</div>
    <a class="btn" href="astation://pair?code="#;

/// Part 5 of the page's fixed text.
pub const PAIR_PAGE_4: &'static str = r#"">Open in Astation</a>
    <div class="download">
      <p>Don't have Astation? <a href="https://github.com/AgoraIO-Community/astation/releases">Download</a></p>
    </div>
  </div>
</body>
</html>"#;

/// The page's text: its fixed parts with the values between them.
pub open spec fn pair_page_text(code: Seq<char>, hostname: Seq<char>) -> Seq<char> {
    PAIR_PAGE_0@ + code + PAIR_PAGE_1@ + code + PAIR_PAGE_2@ + hostname + PAIR_PAGE_3@ + code
        + PAIR_PAGE_4@
}

/// Renders the landing page of a pairing.
pub fn render_pair_page(code: &str, hostname: &str) -> (html: String)
    ensures
        html@ == pair_page_text(code@, hostname@),
{
    let mut html = String::from_str(PAIR_PAGE_0);
    html.append(code);
    html.append(PAIR_PAGE_1);
    html.append(code);
    html.append(PAIR_PAGE_2);
    html.append(hostname);
    html.append(PAIR_PAGE_3);
    html.append(code);
    html.append(PAIR_PAGE_4);
    html
}

/// The page shows the pairing code and the host name.
pub proof fn lemma_pair_page_shows_values(code: Seq<char>, hostname: Seq<char>)
    ensures
        has_infix(pair_page_text(code, hostname), code),
        has_infix(pair_page_text(code, hostname), hostname),
{
    let page = pair_page_text(code, hostname);
    let after_title = PAIR_PAGE_1@ + code + PAIR_PAGE_2@ + hostname + PAIR_PAGE_3@ + code
        + PAIR_PAGE_4@;
    lemma_infix_of_concat(PAIR_PAGE_0@, code, after_title);
    assert(page =~= PAIR_PAGE_0@ + code + after_title);
    let before_host = PAIR_PAGE_0@ + code + PAIR_PAGE_1@ + code + PAIR_PAGE_2@;
    let after_host = PAIR_PAGE_3@ + code + PAIR_PAGE_4@;
    lemma_infix_of_concat(before_host, hostname, after_host);
    assert(page =~= before_host + hostname + after_host);
}

} // verus!

//! The pages that the server renders itself.

use vstd::prelude::*;
use crate::headers::HeaderModel;
use crate::query::{QueryParams, param_value};
use crate::text::{push_char, push_text, text_eq};
use vstd::string::StringExecFns;
use vstd::std_specs::iter::IteratorSpec;

verus! {

broadcast use vstd::string::axiom_spec_iter, vstd::string::next_postcondition;

/// The version that the pages and `/version` report.
pub const VERSION: &'static str = "0.1.0";

pub const INDEX_0: &'static str = r#"<!DOCTYPE html>
<html lang="en">
<head>
  <title>Piping Server</title>
  <meta name="viewport" content="width=device-width,initial-scale=1">
  <meta charset="UTF-8">
  <style>
    body {
      font-family: "Avenir Next", Helvetica, Arial, sans-serif;
      font-size: 110%;
      margin: 1em;
    }
    h3 {
      margin-top: 2em;
      margin-bottom: 0.5em;
    }
  </style>
</head>
<body>
<h1 style="display: inline">Piping Server</h1>
<span>(Rust) "#;

pub const INDEX_1: &'static str = r#"</span>
<p>Streaming Data Transfer Server over HTTP/HTTPS</p>
<h3>Step 1: Choose a file or text</h3>
<input type="checkbox" id="text_mode" onchange="toggleInputMode()">: <b>Text mode</b><br><br>
<input type="file" id="file_input">
<textarea id="text_input" placeholder="Input text" cols="30" rows="10" style="display: none"></textarea>
<br>
<h3>Step 2: Write your secret path</h3>
(e.g. "abcd1234", "mysecret.png")<br>
<input id="secret_path" placeholder="Secret path" size="50"><br>
<h3>Step 3: Click the send button</h3>
<button onclick="send()">Send</button><br>
<progress id="progress_bar" value="0" max="100" style="display: none"></progress><br>
<div id="message"></div>
<hr>
<a href="https://piping-ui.org">Piping UI for Web</a><br>
<a href="noscript">Transfer without JavaScript</a><br>
<script>
  // Toggle input mode: file or text
  var toggleInputMode = (function () {
    var activeInput      = window.file_input;
    var deactivatedInput = window.text_input;
    // Set inputs' functionality and visibility
    function setInputs() {
      activeInput.removeAttribute("disabled");
      activeInput.style.removeProperty("display");
      deactivatedInput.setAttribute("disabled", "");
      deactivatedInput.style.display = "none";
    }
    setInputs();
    // Body of toggleInputMode
    function toggle() {
      // Swap inputs
      var tmpInput     = activeInput;
      activeInput      = deactivatedInput;
      deactivatedInput = tmpInput;
      setInputs();
    }
    return toggle;
  })();
  function setMessage(msg) {
    window.message.innerText = msg;
  }
  function setProgress(loaded, total) {
    var progress = (total === 0) ? 0 : loaded / total * 100;
    window.progress_bar.value = progress;
    setMessage(loaded + "B (" + progress.toFixed(2) + "%)");
  }
  function hideProgress() {
    window.progress_bar.style.display = "none";
  }
  function send() {
    // Select body (text or file)
    var body = window.text_mode.checked ? window.text_input.value : window.file_input.files[0];
    // Send
    var xhr = new XMLHttpRequest();
    var path = location.href.replace(/\/$/, '') + "/" + window.secret_path.value;
    xhr.open("POST", path, true);
    // If file has no type
    if (!window.text_mode.checked && body.type === "") {
      xhr.setRequestHeader("Content-Type", "application/octet-stream");
    }
    // Update progress bar
    xhr.upload.onprogress = function (e) {
      setProgress(e.loaded, e.total);
    };
    xhr.upload.onload = function (e) {
      // Send finished
      if (xhr.status === 200) {
        setProgress(e.loaded, e.total);
      }
    };
    xhr.onload = function () {
      // Status code error
      if (xhr.status !== 200) {
        setMessage(xhr.responseText);
        hideProgress();
      }
    };
    xhr.onerror = function () {
      setMessage("Upload error");
      hideProgress();
    };
    xhr.send(body);
    // Show progress bar
    window.progress_bar.style.removeProperty("display");
  }
</script>
</body>
</html>
"#;

pub const HELP_0: &'static str = r#"Help for Piping Server (Rust) "#;

pub const HELP_1: &'static str = r#"

======= Get  =======
curl "#;

pub const HELP_2: &'static str = r#"

======= Send =======
# Send a file
curl -T myfile "#;

pub const HELP_3: &'static str = r#"

# Send a text
echo 'hello!' | curl -T - "#;

pub const HELP_4: &'static str = r#"

# Send a directory (zip)
zip -q -r - ./mydir | curl -T - "#;

pub const HELP_5: &'static str = r#"

# Send a directory (tar.gz)
tar zfcp - ./mydir | curl -T - "#;

pub const HELP_6: &'static str = r#"

# Encryption
## Send
cat myfile | openssl aes-256-cbc | curl -T - "#;

pub const HELP_7: &'static str = r#"
## Get
curl "#;

pub const HELP_8: &'static str = r#" | openssl aes-256-cbc -d
"#;

pub const TEXT_INPUT_0: &'static str = r#"<h3>Step 2: Input text</h3>
    <textarea name="input_text" cols="30" "#;

pub const TEXT_INPUT_1: &'static str = r#" placeholder=""#;

pub const TEXT_INPUT_2: &'static str = r#""></textarea>"#;

pub const FILE_INPUT_0: &'static str = r#"<h3>Step 2: Choose a file</h3>
    <input type="file" name="input_file" "#;

pub const FILE_INPUT_1: &'static str = r#">"#;

pub const NO_SCRIPT_0: &'static str = r#"<!DOCTYPE html>
<html lang="en">
<head>
  <title>File transfer without JavaScript</title>
  <meta name="viewport" content="width=device-width,initial-scale=1">
  <meta charset="UTF-8">
  <style nonce=""#;

pub const NO_SCRIPT_1: &'static str = r#"">
    body {
      font-family: sans-serif;
      font-size: 110%;
    }
    h3 {
      margin-top: 2em;
      margin-bottom: 0.5em;
    }
  </style>
</head>
<body>
  <h2>File transfer without JavaScript</h2>
  <form method="GET">
    <h3>Step 1: Specify path and mode</h3>
    <input name="path" value=""#;

pub const NO_SCRIPT_2: &'static str = r#"" size="30" placeholder='e.g. "abc123", "myimg.png"'>
    <input type="submit" value="Apply"><br>
    <input type="radio" name="mode" value="file" "#;

pub const NO_SCRIPT_3: &'static str = r#">File
    <input type="radio" name="mode" value="text" "#;

pub const NO_SCRIPT_4: &'static str = r#">Text<br>
  </form>
  <form method="POST" "#;

pub const NO_SCRIPT_5: &'static str = r#" enctype="multipart/form-data">
    "#;

pub const NO_SCRIPT_6: &'static str = r#"
    <h3>Step 3: Send</h3>
    <input type="submit" value="Send" "#;

pub const NO_SCRIPT_7: &'static str = r#">
  </form>
  <hr>
  Version "#;

pub const NO_SCRIPT_8: &'static str = r#" (Rust)<br>
  <a href=".">Top page</a><br>
</body>
</html>
"#;

/// The front page: a form that sends a file or a text with script.
pub open spec fn index_page() -> Seq<char> {
    INDEX_0@ + VERSION@ + INDEX_1@
}

/// The usage text, with `url` as the address of the examples.
pub open spec fn help_page(url: Seq<char>) -> Seq<char> {
    HELP_0@ + VERSION@ + HELP_1@ + url + HELP_2@ + url + HELP_3@ + url + HELP_4@ + url + HELP_5@
        + url + HELP_6@ + url + HELP_7@ + url + HELP_8@
}

/// The path that the form without script sends to: the parameter `path`, or
/// none.
pub open spec fn form_path(ps: HeaderModel) -> Seq<char> {
    match param_value(ps, "path"@) {
        Some(p) => p,
        None => ""@,
    }
}

/// What the form without script sends: the parameter `mode`, or `file`.
pub open spec fn form_mode(ps: HeaderModel) -> Seq<char> {
    match param_value(ps, "mode"@) {
        Some(m) => m,
        None => "file"@,
    }
}

/// The input of the second step: a text area in mode `text`, else a file
/// input; disabled while no path is given.
pub open spec fn step_two_input(mode: Seq<char>, path: Seq<char>) -> Seq<char> {
    if mode == "text"@ {
        TEXT_INPUT_0@ + (if path.len() == 0 {
            "disabled"@
        } else {
            "rows='10'"@
        }) + TEXT_INPUT_1@ + (if path.len() == 0 {
            "Fill in the path above first"@
        } else {
            ""@
        }) + TEXT_INPUT_2@
    } else {
        FILE_INPUT_0@ + (if path.len() == 0 {
            "disabled"@
        } else {
            ""@
        }) + FILE_INPUT_1@
    }
}

/// The target attribute of the sending form: none while no path is given.
pub open spec fn post_action(path: Seq<char>) -> Seq<char> {
    if path.len() == 0 {
        ""@
    } else {
        "action=\""@ + escaped(path) + "\""@
    }
}

/// `checked` where `on` holds.
pub open spec fn checked_if(on: bool) -> Seq<char> {
    if on {
        "checked"@
    } else {
        ""@
    }
}

/// The page that sends a file or a text without script, for the query
/// parameters `ps`, with its style block tagged by `nonce`.
pub open spec fn no_script_page(ps: HeaderModel, nonce: Seq<char>) -> Seq<char> {
    let path = form_path(ps);
    let mode = form_mode(ps);
    NO_SCRIPT_0@ + nonce + NO_SCRIPT_1@ + escaped(path) + NO_SCRIPT_2@ + checked_if(mode == "file"@)
        + NO_SCRIPT_3@ + checked_if(mode == "text"@) + NO_SCRIPT_4@ + post_action(path)
        + NO_SCRIPT_5@ + step_two_input(mode, path) + NO_SCRIPT_6@ + (if path.len() == 0 {
        "disabled"@
    } else {
        ""@
    }) + NO_SCRIPT_7@ + VERSION@ + NO_SCRIPT_8@
}


/// The entity reference that stands for `c` in an HTML attribute value, or the
/// character itself.
pub open spec fn escape_char(c: char) -> Seq<char> {
    if c == '&' {
        "&amp;"@
    } else if c == '\'' {
        "&apos;"@
    } else if c == '"' {
        "&quot;"@
    } else if c == '<' {
        "&lt;"@
    } else if c == '>' {
        "&gt;"@
    } else {
        seq![c]
    }
}

/// `s` with each of `&`, `'`, `"`, `<` and `>` replaced by its entity reference.
pub open spec fn escaped(s: Seq<char>) -> Seq<char>
    decreases s.len(),
{
    if s.len() == 0 {
        Seq::empty()
    } else {
        escaped(s.drop_last()) + escape_char(s.last())
    }
}

/// Escapes `s` for use inside a quoted HTML attribute value.
pub fn escape_html_attribute(s: &str) -> (r: String)
    ensures
        r@ == escaped(s@),
{
    let mut out = String::new();
    let mut chars = s.chars();
    let ghost mut i: int = 0;
    loop
        invariant
            0 <= i <= s@.len(),
            chars.remaining() == s@.subrange(i, s@.len() as int),
            out@ == escaped(s@.subrange(0, i)),
        ensures
            i == s@.len(),
            out@ == escaped(s@.subrange(0, i)),
        decreases s@.len() - i,
    {
        match chars.next() {
            None => {
                assert(i == s@.len());
                break;
            },
            Some(c) => {
                proof {
                    assert(s@.subrange(0, i + 1).drop_last() == s@.subrange(0, i));
                }
                if c == '&' {
                    push_text(&mut out, "&amp;");
                } else if c == '\'' {
                    push_text(&mut out, "&apos;");
                } else if c == '"' {
                    push_text(&mut out, "&quot;");
                } else if c == '<' {
                    push_text(&mut out, "&lt;");
                } else if c == '>' {
                    push_text(&mut out, "&gt;");
                } else {
                    push_char(&mut out, c);
                }
                proof {
                    i = i + 1;
                }
            },
        }
    }
    proof {
        assert(s@.subrange(0, i) =~= s@);
    }
    out
}

/// The front page.
pub fn index() -> (r: String)
    ensures
        r@ == index_page(),
{
    let mut out = String::from_str(INDEX_0);
    push_text(&mut out, VERSION);
    push_text(&mut out, INDEX_1);
    out
}

/// The usage text, with `url` as the address of the examples.
pub fn help(url: &str) -> (r: String)
    ensures
        r@ == help_page(url@),
{
    let mut out = String::from_str(HELP_0);
    push_text(&mut out, VERSION);
    push_text(&mut out, HELP_1);
    push_text(&mut out, url);
    push_text(&mut out, HELP_2);
    push_text(&mut out, url);
    push_text(&mut out, HELP_3);
    push_text(&mut out, url);
    push_text(&mut out, HELP_4);
    push_text(&mut out, url);
    push_text(&mut out, HELP_5);
    push_text(&mut out, url);
    push_text(&mut out, HELP_6);
    push_text(&mut out, url);
    push_text(&mut out, HELP_7);
    push_text(&mut out, url);
    push_text(&mut out, HELP_8);
    out
}

/// The page that sends a file or a text without script, for the query
/// parameters `query_params`, with its style block tagged by `style_nonce`.
pub fn no_script_html(query_params: &QueryParams, style_nonce: &str) -> (r: String)
    ensures
        r@ == no_script_page(query_params@, style_nonce@),
{
    let path = match query_params.get("path") {
        Some(p) => p,
        None => String::from_str(""),
    };
    let mode = match query_params.get("mode") {
        Some(m) => m,
        None => String::from_str("file"),
    };
    let no_path = path.unicode_len() == 0;
    let is_text = text_eq(mode.as_str(), "text");
    let is_file = text_eq(mode.as_str(), "file");

    let mut input;
    if is_text {
        input = String::from_str(TEXT_INPUT_0);
        push_text(&mut input, if no_path { "disabled" } else { "rows='10'" });
        push_text(&mut input, TEXT_INPUT_1);
        push_text(&mut input, if no_path { "Fill in the path above first" } else { "" });
        push_text(&mut input, TEXT_INPUT_2);
    } else {
        input = String::from_str(FILE_INPUT_0);
        push_text(&mut input, if no_path { "disabled" } else { "" });
        push_text(&mut input, FILE_INPUT_1);
    }

    let escaped_path = escape_html_attribute(path.as_str());
    let action = if no_path {
        String::from_str("")
    } else {
        let mut a = String::from_str("action=\"");
        push_text(&mut a, escaped_path.as_str());
        push_text(&mut a, "\"");
        a
    };

    let mut out = String::from_str(NO_SCRIPT_0);
    push_text(&mut out, style_nonce);
    push_text(&mut out, NO_SCRIPT_1);
    push_text(&mut out, escaped_path.as_str());
    push_text(&mut out, NO_SCRIPT_2);
    push_text(&mut out, if is_file { "checked" } else { "" });
    push_text(&mut out, NO_SCRIPT_3);
    push_text(&mut out, if is_text { "checked" } else { "" });
    push_text(&mut out, NO_SCRIPT_4);
    push_text(&mut out, action.as_str());
    push_text(&mut out, NO_SCRIPT_5);
    push_text(&mut out, input.as_str());
    push_text(&mut out, NO_SCRIPT_6);
    push_text(&mut out, if no_path { "disabled" } else { "" });
    push_text(&mut out, NO_SCRIPT_7);
    push_text(&mut out, VERSION);
    push_text(&mut out, NO_SCRIPT_8);
    out
}

} // verus!

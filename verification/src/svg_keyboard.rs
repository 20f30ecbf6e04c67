//! The on-screen keyboard: its drawing, and which key carries which character.

use crate::ascii_chars::{is_supported_code, AsciiChars};
use vstd::prelude::*;
use vstd::string::*;

verus! {

/// The identifier of the left shift key in the drawing.
pub const SHIFT_KEY_ID: &'static str = "key-shift-left";

/// The identifier, in the drawing, of the key that carries `c`: the empty
/// text for a character that no key carries.
pub open spec fn key_id_of(c: char) -> Seq<char> {
    if 'A' <= c <= 'Z' {
        "key-"@.push(((c as u8) + 32) as char)
    } else if 'a' <= c <= 'z' || '0' <= c <= '9' {
        "key-"@.push(c)
    } else if c == '`' || c == '~' {
        "key-tilde"@
    } else if c == '!' {
        "key-1"@
    } else if c == '@' {
        "key-2"@
    } else if c == '#' {
        "key-3"@
    } else if c == '$' {
        "key-4"@
    } else if c == '%' {
        "key-5"@
    } else if c == '^' {
        "key-6"@
    } else if c == '&' {
        "key-7"@
    } else if c == '*' {
        "key-8"@
    } else if c == '(' {
        "key-9"@
    } else if c == ')' {
        "key-0"@
    } else if c == '-' || c == '_' {
        "key-minus"@
    } else if c == '=' || c == '+' {
        "key-equals"@
    } else if c == '[' || c == '{' {
        "key-l-bracket"@
    } else if c == ']' || c == '}' {
        "key-r-bracket"@
    } else if c == '\\' || c == '|' {
        "key-backslash"@
    } else if c == ';' || c == ':' {
        "key-semicolon"@
    } else if c == '\'' || c == '"' {
        "key-s-quote"@
    } else if c == ',' || c == '<' {
        "key-comma"@
    } else if c == '.' || c == '>' {
        "key-period"@
    } else if c == '/' || c == '?' {
        "key-slash"@
    } else {
        Seq::empty()
    }
}

/// Whether the drawing marks the shift key along with the key of `c`: for
/// capital letters, for the symbols above the digits, and for `~ _ + < > ?`.
/// The symbols `{ } | : "` are marked on their key alone.
pub open spec fn needs_shift(c: char) -> bool {
    ||| 'A' <= c <= 'Z'
    ||| c == '~' || c == '!' || c == '@' || c == '#' || c == '$' || c == '%'
    ||| c == '^' || c == '&' || c == '*' || c == '(' || c == ')'
    ||| c == '_' || c == '+' || c == '<' || c == '>' || c == '?'
}

/// Whether `part` stands in `text` from position `at` on.
pub open spec fn occurs_at(text: Seq<char>, part: Seq<char>, at: int) -> bool {
    0 <= at && at + part.len() <= text.len() && text.subrange(at, at + part.len()) == part
}

/// Whether `part` stands somewhere in `text`.
pub open spec fn occurs_in(text: Seq<char>, part: Seq<char>) -> bool {
    exists|at: int| occurs_at(text, part, at)
}

/// The opening tag of the group that the drawing holds for the key `id`.
pub open spec fn group_tag(id: Seq<char>) -> Seq<char> {
    "<g id=\""@ + id + "\">"@
}

/// Every supported character sits on a key: its identifier is `key-`
/// followed by the name of the key.
pub proof fn lemma_every_character_has_a_key(c: char)
    requires
        is_supported_code(c as int),
    ensures
        key_id_of(c).len() > 4,
        key_id_of(c).subrange(0, 4) == "key-"@,
{
    reveal_strlit("key-");
    reveal_strlit("key-tilde");
    reveal_strlit("key-1");
    reveal_strlit("key-2");
    reveal_strlit("key-3");
    reveal_strlit("key-4");
    reveal_strlit("key-5");
    reveal_strlit("key-6");
    reveal_strlit("key-7");
    reveal_strlit("key-8");
    reveal_strlit("key-9");
    reveal_strlit("key-0");
    reveal_strlit("key-minus");
    reveal_strlit("key-equals");
    reveal_strlit("key-l-bracket");
    reveal_strlit("key-r-bracket");
    reveal_strlit("key-backslash");
    reveal_strlit("key-semicolon");
    reveal_strlit("key-s-quote");
    reveal_strlit("key-comma");
    reveal_strlit("key-period");
    reveal_strlit("key-slash");
}

/// Capital and small letters share a key.
pub proof fn lemma_letters_share_a_key(small: char)
    requires
        'a' <= small <= 'z',
    ensures
        key_id_of(((small as u8) - 32) as char) == key_id_of(small),
        needs_shift(((small as u8) - 32) as char),
        !needs_shift(small),
{
}

/// The keyboard drawing.
pub struct SvgKeyboard {}

impl SvgKeyboard {
    /// The keyboard. There is one drawing, so every keyboard is the same.
    pub fn new() -> Self {
        SvgKeyboard {  }
    }

    /// The drawing of a QWERTY keyboard as an SVG document, one group per key,
    /// each under the identifier that [`SvgKeyboard::get_css_ids`] gives.
    pub fn render() -> (svg: &'static str)
        ensures
            svg@ == SVG_KEYBOARD@,
    {
        SVG_KEYBOARD
    }

    /// The identifiers of the keys to press for `key_char`: its own key, and
    /// the left shift key where [`needs_shift`] says so. The drawing holds a
    /// group under each identifier returned.
    pub fn get_css_ids(key_char: &AsciiChars) -> (ids: (String, Option<&'static str>))
        ensures
            ids.0@ == key_id_of(key_char@ as char),
            occurs_in(SVG_KEYBOARD@, group_tag(ids.0@)),
            needs_shift(key_char@ as char) ==> ids.1 is Some && ids.1->Some_0@ == SHIFT_KEY_ID@,
            !needs_shift(key_char@ as char) ==> ids.1 is None,
            ids.1 matches Some(shift_id) ==> occurs_in(SVG_KEYBOARD@, group_tag(shift_id@)),
    {
        proof {
            use_type_invariant(key_char);
            lemma_every_key_is_drawn(key_char@ as char);
        }
        let shift_needed = shift_key_needed(key_char);
        let css_id = map_ascii_to_key_id(key_char);
        if shift_needed {
            (css_id, Some(SHIFT_KEY_ID))
        } else {
            (css_id, None)
        }
    }
}

/// Whether the shift key is marked along with the key of `key_char`.
pub fn shift_key_needed(key_char: &AsciiChars) -> (needed: bool)
    ensures
        needed == needs_shift(key_char@ as char),
{
    let c = key_char.as_char();
    match c {
        'A'..='Z' => true,
        '<' | '>' | '?' | '~' | '!' | '@' | '#' | '$' | '%' | '^' | '&' | '*' | '(' | ')' | '_'
        | '+' => true,
        _ => false,
    }
}

/// The identifier of the key that carries `key_char`: `key-` and the name
/// of the key, under which the drawing holds a group.
pub fn map_ascii_to_key_id(key_char: &AsciiChars) -> (id: String)
    ensures
        id@ == key_id_of(key_char@ as char),
        id@.len() > 4,
        id@.subrange(0, 4) == "key-"@,
        occurs_in(SVG_KEYBOARD@, group_tag(id@)),
{
    proof {
        use_type_invariant(key_char);
        lemma_every_character_has_a_key(key_char@ as char);
        lemma_every_key_is_drawn(key_char@ as char);
    }
    let c = key_char.as_char();
    match c {
        'A'..='Z' => {
            let mut id = "key-".to_string();
            id.push((key_char.code() + 32) as char);
            id
        },
        'a'..='z' | '0'..='9' => {
            let mut id = "key-".to_string();
            id.push(c);
            id
        },
        '-' => "key-minus".to_string(),
        '=' => "key-equals".to_string(),
        '[' | '{' => "key-l-bracket".to_string(),
        ']' | '}' => "key-r-bracket".to_string(),
        '\\' | '|' => "key-backslash".to_string(),
        ';' | ':' => "key-semicolon".to_string(),
        '\'' | '"' => "key-s-quote".to_string(),
        ',' | '<' => "key-comma".to_string(),
        '.' | '>' => "key-period".to_string(),
        '/' | '?' => "key-slash".to_string(),
        '`' | '~' => "key-tilde".to_string(),
        '!' => "key-1".to_string(),
        '@' => "key-2".to_string(),
        '#' => "key-3".to_string(),
        '$' => "key-4".to_string(),
        '%' => "key-5".to_string(),
        '^' => "key-6".to_string(),
        '&' => "key-7".to_string(),
        '*' => "key-8".to_string(),
        '(' => "key-9".to_string(),
        ')' => "key-0".to_string(),
        '_' => "key-minus".to_string(),
        '+' => "key-equals".to_string(),
        _ => String::new(),
    }
}

/// The keyboard drawing that [`SvgKeyboard::render`] returns.
pub const SVG_KEYBOARD: &'static str = r###"
<svg viewBox="0 0 710 240" xmlns="http://www.w3.org/2000/svg" width="100%" height="auto" preserveAspectRatio="xMidYMid meet">
  <defs>
    <linearGradient id="keyGrad" x1="0" y1="0" x2="0" y2="1">
      <stop offset="0%" stop-color="#e0e0e0" />
      <stop offset="100%" stop-color="#a0a0a0" />
    </linearGradient>
  </defs>
<g id="key-tilde">
  <rect x="10" y="10" width="45" height="40" rx="6" fill="url(#keyGrad)" stroke="black" />
  <text x="32.5" y="22" font-size="10" text-anchor="middle">~</text>
  <text x="32.5" y="42" font-size="14" text-anchor="middle">`</text>
</g>
<g id="key-1">
  <rect x="57" y="10" width="45" height="40" rx="6" fill="url(#keyGrad)" stroke="black" />
  <text x="79.5" y="22" font-size="10" text-anchor="middle">!</text>
  <text x="79.5" y="42" font-size="14" text-anchor="middle">1</text>
</g>
<g id="key-2">
  <rect x="104" y="10" width="45" height="40" rx="6" fill="url(#keyGrad)" stroke="black" />
  <text x="126.5" y="22" font-size="10" text-anchor="middle">@</text>
  <text x="126.5" y="42" font-size="14" text-anchor="middle">2</text>
</g>
<g id="key-3">
  <rect x="151" y="10" width="45" height="40" rx="6" fill="url(#keyGrad)" stroke="black" />
  <text x="173.5" y="22" font-size="10" text-anchor="middle">#</text>
  <text x="173.5" y="42" font-size="14" text-anchor="middle">3</text>
</g>
<g id="key-4">
  <rect x="198" y="10" width="45" height="40" rx="6" fill="url(#keyGrad)" stroke="black" />
  <text x="220.5" y="22" font-size="10" text-anchor="middle">$</text>
  <text x="220.5" y="42" font-size="14" text-anchor="middle">4</text>
</g>
<g id="key-5">
  <rect x="245" y="10" width="45" height="40" rx="6" fill="url(#keyGrad)" stroke="black" />
  <text x="267.5" y="22" font-size="10" text-anchor="middle">%</text>
  <text x="267.5" y="42" font-size="14" text-anchor="middle">5</text>
</g>
<g id="key-6">
  <rect x="292" y="10" width="45" height="40" rx="6" fill="url(#keyGrad)" stroke="black" />
  <text x="314.5" y="22" font-size="10" text-anchor="middle">^</text>
  <text x="314.5" y="42" font-size="14" text-anchor="middle">6</text>
</g>
<g id="key-7">
  <rect x="339" y="10" width="45" height="40" rx="6" fill="url(#keyGrad)" stroke="black" />
  <text x="361.5" y="22" font-size="10" text-anchor="middle">&amp;</text>
  <text x="361.5" y="42" font-size="14" text-anchor="middle">7</text>
</g>
<g id="key-8">
  <rect x="386" y="10" width="45" height="40" rx="6" fill="url(#keyGrad)" stroke="black" />
  <text x="408.5" y="22" font-size="10" text-anchor="middle">*</text>
  <text x="408.5" y="42" font-size="14" text-anchor="middle">8</text>
</g>
<g id="key-9">
  <rect x="433" y="10" width="45" height="40" rx="6" fill="url(#keyGrad)" stroke="black" />
  <text x="455.5" y="22" font-size="10" text-anchor="middle">(</text>
  <text x="455.5" y="42" font-size="14" text-anchor="middle">9</text>
</g>
<g id="key-0">
  <rect x="480" y="10" width="45" height="40" rx="6" fill="url(#keyGrad)" stroke="black" />
  <text x="502.5" y="22" font-size="10" text-anchor="middle">)</text>
  <text x="502.5" y="42" font-size="14" text-anchor="middle">0</text>
</g>
<g id="key-minus">
  <rect x="527" y="10" width="45" height="40" rx="6" fill="url(#keyGrad)" stroke="black" />
  <text x="549.5" y="22" font-size="10" text-anchor="middle">_</text>
  <text x="549.5" y="42" font-size="14" text-anchor="middle">-</text>
</g>
<g id="key-equals">
  <rect x="574" y="10" width="45" height="40" rx="6" fill="url(#keyGrad)" stroke="black" />
  <text x="596.5" y="22" font-size="10" text-anchor="middle">+</text>
  <text x="596.5" y="42" font-size="14" text-anchor="middle">=</text>
</g>
<g id="key-back">
  <rect x="621" y="10" width="80" height="40" rx="6" fill="url(#keyGrad)" stroke="black" />
  <text x="661.0" y="35.0" font-size="14" text-anchor="middle">Back</text>
</g>
<g id="key-tab">
  <rect x="10" y="55" width="65" height="40" rx="6" fill="url(#keyGrad)" stroke="black" />
  <text x="42.5" y="80.0" font-size="14" text-anchor="middle">Tab</text>
</g>
<g id="key-q">
  <rect x="77" y="55" width="45" height="40" rx="6" fill="url(#keyGrad)" stroke="black" />
  <text x="99.5" y="80.0" font-size="14" text-anchor="middle">Q</text>
</g>
<g id="key-w">
  <rect x="124" y="55" width="45" height="40" rx="6" fill="url(#keyGrad)" stroke="black" />
  <text x="146.5" y="80.0" font-size="14" text-anchor="middle">W</text>
</g>
<g id="key-e">
  <rect x="171" y="55" width="45" height="40" rx="6" fill="url(#keyGrad)" stroke="black" />
  <text x="193.5" y="80.0" font-size="14" text-anchor="middle">E</text>
</g>
<g id="key-r">
  <rect x="218" y="55" width="45" height="40" rx="6" fill="url(#keyGrad)" stroke="black" />
  <text x="240.5" y="80.0" font-size="14" text-anchor="middle">R</text>
</g>
<g id="key-t">
  <rect x="265" y="55" width="45" height="40" rx="6" fill="url(#keyGrad)" stroke="black" />
  <text x="287.5" y="80.0" font-size="14" text-anchor="middle">T</text>
</g>
<g id="key-y">
  <rect x="312" y="55" width="45" height="40" rx="6" fill="url(#keyGrad)" stroke="black" />
  <text x="334.5" y="80.0" font-size="14" text-anchor="middle">Y</text>
</g>
<g id="key-u">
<rect x="359" y="55" width="45" height="40" rx="6" fill="url(#keyGrad)" stroke="black" />
<text x="381.5" y="80.0" font-size="14" text-anchor="middle">U</text>
</g>
<g id="key-i">
  <rect x="406" y="55" width="45" height="40" rx="6" fill="url(#keyGrad)" stroke="black" />
  <text x="428.5" y="80.0" font-size="14" text-anchor="middle">I</text>
</g>
<g id="key-o">
  <rect x="453" y="55" width="45" height="40" rx="6" fill="url(#keyGrad)" stroke="black" />
  <text x="475.5" y="80.0" font-size="14" text-anchor="middle">O</text>
</g>
<g id="key-p">
  <rect x="500" y="55" width="45" height="40" rx="6" fill="url(#keyGrad)" stroke="black" />
  <text x="522.5" y="80.0" font-size="14" text-anchor="middle">P</text>
</g>
<g id="key-l-bracket">
  <rect x="547" y="55" width="45" height="40" rx="6" fill="url(#keyGrad)" stroke="black" />
  <text x="569.5" y="67" font-size="10" text-anchor="middle">{</text>
  <text x="569.5" y="87" font-size="14" text-anchor="middle">[</text>
</g>
<g id="key-r-bracket">
  <rect x="594" y="55" width="45" height="40" rx="6" fill="url(#keyGrad)" stroke="black" />
  <text x="616.5" y="67" font-size="10" text-anchor="middle">}</text>
  <text x="616.5" y="87" font-size="14" text-anchor="middle">]</text>
</g>
<g id="key-backslash">
  <rect x="641" y="55" width="59" height="40" rx="6" fill="url(#keyGrad)" stroke="black" />
  <text x="670.5" y="67" font-size="10" text-anchor="middle">|</text>
  <text x="670.5" y="87" font-size="14" text-anchor="middle">\</text>
</g>
<g id="key-caps">
  <rect x="10" y="100" width="75" height="40" rx="6" fill="url(#keyGrad)" stroke="black" />
  <text x="47.5" y="125.0" font-size="14" text-anchor="middle">Caps</text>
</g>
<g id="key-a">
  <rect x="87" y="100" width="45" height="40" rx="6" fill="url(#keyGrad)" stroke="black" />
  <text x="109.5" y="125.0" font-size="14" text-anchor="middle">A</text>
</g>
<g id="key-s">
  <rect x="134" y="100" width="45" height="40" rx="6" fill="url(#keyGrad)" stroke="black" />
  <text x="156.5" y="125.0" font-size="14" text-anchor="middle">S</text>
</g>
<g id="key-d">
  <rect x="181" y="100" width="45" height="40" rx="6" fill="url(#keyGrad)" stroke="black" />
  <text x="203.5" y="125.0" font-size="14" text-anchor="middle">D</text>
</g>
<g id="key-f">
  <rect x="228" y="100" width="45" height="40" rx="6" fill="url(#keyGrad)" stroke="black" />
  <text x="250.5" y="125.0" font-size="14" text-anchor="middle">F</text>
</g>
<g id="key-g">
  <rect x="275" y="100" width="45" height="40" rx="6" fill="url(#keyGrad)" stroke="black" />
  <text x="297.5" y="125.0" font-size="14" text-anchor="middle">G</text>
</g>
<g id="key-h">
  <rect x="322" y="100" width="45" height="40" rx="6" fill="url(#keyGrad)" stroke="black" />
  <text x="344.5" y="125.0" font-size="14" text-anchor="middle">H</text>
</g>
<g id="key-j">
  <rect x="369" y="100" width="45" height="40" rx="6" fill="url(#keyGrad)" stroke="black" />
  <text x="391.5" y="125.0" font-size="14" text-anchor="middle">J</text>
</g>
<g id="key-k">
  <rect x="416" y="100" width="45" height="40" rx="6" fill="url(#keyGrad)" stroke="black" />
  <text x="438.5" y="125.0" font-size="14" text-anchor="middle">K</text>
</g>
<g id="key-l">
  <rect x="463" y="100" width="45" height="40" rx="6" fill="url(#keyGrad)" stroke="black" />
  <text x="485.5" y="125.0" font-size="14" text-anchor="middle">L</text>
</g>
<g id="key-semicolon">
  <rect x="510" y="100" width="45" height="40" rx="6" fill="url(#keyGrad)" stroke="black" />
  <text x="532.5" y="112" font-size="10" text-anchor="middle">:</text>
  <text x="532.5" y="132" font-size="14" text-anchor="middle">;</text>
</g>
<g id="key-s-quote">
  <rect x="557" y="100" width="45" height="40" rx="6" fill="url(#keyGrad)" stroke="black" />
  <text x="579.5" y="112" font-size="10" text-anchor="middle">&quot;</text>
  <text x="579.5" y="132" font-size="14" text-anchor="middle">'</text>
</g>
<g id="key-enter">
  <rect x="604" y="100" width="96" height="40" rx="6" fill="url(#keyGrad)" stroke="black" />
  <text x="652.0" y="125.0" font-size="14" text-anchor="middle">Enter</text>
</g>
<g id="key-shift-left">
  <rect x="10" y="145" width="90" height="40" rx="6" fill="url(#keyGrad)" stroke="black" />
  <text x="55.0" y="170.0" font-size="14" text-anchor="middle">Shift</text>
</g>
<g id="key-z">
  <rect x="102" y="145" width="45" height="40" rx="6" fill="url(#keyGrad)" stroke="black" />
  <text x="124.5" y="170.0" font-size="14" text-anchor="middle">Z</text>
</g>
<g id="key-x">
  <rect x="149" y="145" width="45" height="40" rx="6" fill="url(#keyGrad)" stroke="black" />
  <text x="171.5" y="170.0" font-size="14" text-anchor="middle">X</text>
</g>
<g id="key-c">
  <rect x="196" y="145" width="45" height="40" rx="6" fill="url(#keyGrad)" stroke="black" />
  <text x="218.5" y="170.0" font-size="14" text-anchor="middle">C</text>
</g>
<g id="key-v">
  <rect x="243" y="145" width="45" height="40" rx="6" fill="url(#keyGrad)" stroke="black" />
  <text x="265.5" y="170.0" font-size="14" text-anchor="middle">V</text>
</g>
<g id="key-b">
  <rect x="290" y="145" width="45" height="40" rx="6" fill="url(#keyGrad)" stroke="black" />
  <text x="312.5" y="170.0" font-size="14" text-anchor="middle">B</text>
</g>
<g id="key-n">
  <rect x="337" y="145" width="45" height="40" rx="6" fill="url(#keyGrad)" stroke="black" />
  <text x="359.5" y="170.0" font-size="14" text-anchor="middle">N</text>
</g>
<g id="key-m">
  <rect x="384" y="145" width="45" height="40" rx="6" fill="url(#keyGrad)" stroke="black" />
  <text x="406.5" y="170.0" font-size="14" text-anchor="middle">M</text>
</g>
<g id="key-comma">
  <rect x="431" y="145" width="45" height="40" rx="6" fill="url(#keyGrad)" stroke="black" />
  <text x="453.5" y="157" font-size="10" text-anchor="middle">&lt;</text>
  <text x="453.5" y="177" font-size="14" text-anchor="middle">,</text>
</g>
<g id="key-period">
  <rect x="478" y="145" width="45" height="40" rx="6" fill="url(#keyGrad)" stroke="black" />
  <text x="500.5" y="157" font-size="10" text-anchor="middle">&gt;</text>
  <text x="500.5" y="177" font-size="14" text-anchor="middle">.</text>
</g>
<g id="key-slash">
  <rect x="525" y="145" width="45" height="40" rx="6" fill="url(#keyGrad)" stroke="black" />
  <text x="547.5" y="157" font-size="10" text-anchor="middle">?</text>
  <text x="547.5" y="177" font-size="14" text-anchor="middle">/</text>
</g>
<g id="key-shift-right">
  <rect x="572" y="145" width="128" height="40" rx="6" fill="url(#keyGrad)" stroke="black" />
  <text x="636.0" y="170.0" font-size="14" text-anchor="middle">Shift</text>
</g>
<g id="key-ctrl-left">
  <rect x="10" y="190" width="60" height="40" rx="6" fill="url(#keyGrad)" stroke="black" />
  <text x="40.0" y="215.0" font-size="14" text-anchor="middle">Ctrl</text>
</g>
<g id="key-win-left">
  <rect x="72" y="190" width="60" height="40" rx="6" fill="url(#keyGrad)" stroke="black" />
  <text x="102.0" y="215.0" font-size="14" text-anchor="middle">Win</text>
</g>
<g id="key-alt-left">
  <rect x="134" y="190" width="60" height="40" rx="6" fill="url(#keyGrad)" stroke="black" />
  <text x="164.0" y="215.0" font-size="14" text-anchor="middle">Alt</text>
</g>
<g id="key-space">
  <rect x="196" y="190" width="256" height="40" rx="6" fill="url(#keyGrad)" stroke="black" />
  <text x="324.0" y="215.0" font-size="14" text-anchor="middle">Space</text>
</g>
<g id="key-alt-right">
  <rect x="454" y="190" width="60" height="40" rx="6" fill="url(#keyGrad)" stroke="black" />
  <text x="484.0" y="215.0" font-size="14" text-anchor="middle">Alt</text>
</g>
<g id="key-fn">
  <rect x="516" y="190" width="60" height="40" rx="6" fill="url(#keyGrad)" stroke="black" />
  <text x="546.0" y="215.0" font-size="14" text-anchor="middle">FN</text>
</g>
<g id="key-menu">
  <rect x="578" y="190" width="60" height="40" rx="6" fill="url(#keyGrad)" stroke="black" />
  <text x="608.0" y="215.0" font-size="14" text-anchor="middle">Menu</text>
</g>
<g id="key-ctrl-right">
  <rect x="640" y="190" width="60" height="40" rx="6" fill="url(#keyGrad)" stroke="black" />
  <text x="670.0" y="215.0" font-size="14" text-anchor="middle">Ctrl</text>
</g>
</svg>
"###;

/// Where in the drawing the group of the key that carries `c` opens.
spec fn group_start(c: char) -> int {
    if c == '`' || c == '~' {
        328
    } else if c == '1' || c == '!' {
        581
    } else if c == '2' || c == '@' {
        830
    } else if c == '3' || c == '#' {
        1082
    } else if c == '4' || c == '$' {
        1334
    } else if c == '5' || c == '%' {
        1586
    } else if c == '6' || c == '^' {
        1838
    } else if c == '7' || c == '&' {
        2090
    } else if c == '8' || c == '*' {
        2346
    } else if c == '9' || c == '(' {
        2598
    } else if c == '0' || c == ')' {
        2850
    } else if c == '-' || c == '_' {
        3102
    } else if c == '=' || c == '+' {
        3358
    } else if c == 'q' || c == 'Q' {
        3991
    } else if c == 'w' || c == 'W' {
        4173
    } else if c == 'e' || c == 'E' {
        4357
    } else if c == 'r' || c == 'R' {
        4541
    } else if c == 't' || c == 'T' {
        4725
    } else if c == 'y' || c == 'Y' {
        4909
    } else if c == 'u' || c == 'U' {
        5093
    } else if c == 'i' || c == 'I' {
        5273
    } else if c == 'o' || c == 'O' {
        5457
    } else if c == 'p' || c == 'P' {
        5641
    } else if c == '[' || c == '{' {
        5825
    } else if c == ']' || c == '}' {
        6085
    } else if c == '\\' || c == '|' {
        6345
    } else if c == 'a' || c == 'A' {
        6795
    } else if c == 's' || c == 'S' {
        6980
    } else if c == 'd' || c == 'D' {
        7166
    } else if c == 'f' || c == 'F' {
        7352
    } else if c == 'g' || c == 'G' {
        7538
    } else if c == 'h' || c == 'H' {
        7724
    } else if c == 'j' || c == 'J' {
        7910
    } else if c == 'k' || c == 'K' {
        8096
    } else if c == 'l' || c == 'L' {
        8282
    } else if c == ';' || c == ':' {
        8468
    } else if c == '\'' || c == '"' {
        8731
    } else if c == 'z' || c == 'Z' {
        9388
    } else if c == 'x' || c == 'X' {
        9574
    } else if c == 'c' || c == 'C' {
        9760
    } else if c == 'v' || c == 'V' {
        9946
    } else if c == 'b' || c == 'B' {
        10132
    } else if c == 'n' || c == 'N' {
        10318
    } else if c == 'm' || c == 'M' {
        10504
    } else if c == ',' || c == '<' {
        10690
    } else if c == '.' || c == '>' {
        10952
    } else if c == '/' || c == '?' {
        11215
    } else {
        0
    }
}

/// The drawing holds a group for the key of every supported character,
/// under the identifier that [`key_id_of`] gives, and one for the left shift
/// key.
pub proof fn lemma_every_key_is_drawn(c: char)
    requires
        is_supported_code(c as int),
    ensures
        occurs_in(SVG_KEYBOARD@, group_tag(key_id_of(c))),
        occurs_in(SVG_KEYBOARD@, group_tag(SHIFT_KEY_ID@)),
{
    // `reveal_strlit` takes the text itself, so the drawing stands here once
    // more. The proof fails when the two differ.
    reveal_strlit(r###"
<svg viewBox="0 0 710 240" xmlns="http://www.w3.org/2000/svg" width="100%" height="auto" preserveAspectRatio="xMidYMid meet">
  <defs>
    <linearGradient id="keyGrad" x1="0" y1="0" x2="0" y2="1">
      <stop offset="0%" stop-color="#e0e0e0" />
      <stop offset="100%" stop-color="#a0a0a0" />
    </linearGradient>
  </defs>
<g id="key-tilde">
  <rect x="10" y="10" width="45" height="40" rx="6" fill="url(#keyGrad)" stroke="black" />
  <text x="32.5" y="22" font-size="10" text-anchor="middle">~</text>
  <text x="32.5" y="42" font-size="14" text-anchor="middle">`</text>
</g>
<g id="key-1">
  <rect x="57" y="10" width="45" height="40" rx="6" fill="url(#keyGrad)" stroke="black" />
  <text x="79.5" y="22" font-size="10" text-anchor="middle">!</text>
  <text x="79.5" y="42" font-size="14" text-anchor="middle">1</text>
</g>
<g id="key-2">
  <rect x="104" y="10" width="45" height="40" rx="6" fill="url(#keyGrad)" stroke="black" />
  <text x="126.5" y="22" font-size="10" text-anchor="middle">@</text>
  <text x="126.5" y="42" font-size="14" text-anchor="middle">2</text>
</g>
<g id="key-3">
  <rect x="151" y="10" width="45" height="40" rx="6" fill="url(#keyGrad)" stroke="black" />
  <text x="173.5" y="22" font-size="10" text-anchor="middle">#</text>
  <text x="173.5" y="42" font-size="14" text-anchor="middle">3</text>
</g>
<g id="key-4">
  <rect x="198" y="10" width="45" height="40" rx="6" fill="url(#keyGrad)" stroke="black" />
  <text x="220.5" y="22" font-size="10" text-anchor="middle">$</text>
  <text x="220.5" y="42" font-size="14" text-anchor="middle">4</text>
</g>
<g id="key-5">
  <rect x="245" y="10" width="45" height="40" rx="6" fill="url(#keyGrad)" stroke="black" />
  <text x="267.5" y="22" font-size="10" text-anchor="middle">%</text>
  <text x="267.5" y="42" font-size="14" text-anchor="middle">5</text>
</g>
<g id="key-6">
  <rect x="292" y="10" width="45" height="40" rx="6" fill="url(#keyGrad)" stroke="black" />
  <text x="314.5" y="22" font-size="10" text-anchor="middle">^</text>
  <text x="314.5" y="42" font-size="14" text-anchor="middle">6</text>
</g>
<g id="key-7">
  <rect x="339" y="10" width="45" height="40" rx="6" fill="url(#keyGrad)" stroke="black" />
  <text x="361.5" y="22" font-size="10" text-anchor="middle">&amp;</text>
  <text x="361.5" y="42" font-size="14" text-anchor="middle">7</text>
</g>
<g id="key-8">
  <rect x="386" y="10" width="45" height="40" rx="6" fill="url(#keyGrad)" stroke="black" />
  <text x="408.5" y="22" font-size="10" text-anchor="middle">*</text>
  <text x="408.5" y="42" font-size="14" text-anchor="middle">8</text>
</g>
<g id="key-9">
  <rect x="433" y="10" width="45" height="40" rx="6" fill="url(#keyGrad)" stroke="black" />
  <text x="455.5" y="22" font-size="10" text-anchor="middle">(</text>
  <text x="455.5" y="42" font-size="14" text-anchor="middle">9</text>
</g>
<g id="key-0">
  <rect x="480" y="10" width="45" height="40" rx="6" fill="url(#keyGrad)" stroke="black" />
  <text x="502.5" y="22" font-size="10" text-anchor="middle">)</text>
  <text x="502.5" y="42" font-size="14" text-anchor="middle">0</text>
</g>
<g id="key-minus">
  <rect x="527" y="10" width="45" height="40" rx="6" fill="url(#keyGrad)" stroke="black" />
  <text x="549.5" y="22" font-size="10" text-anchor="middle">_</text>
  <text x="549.5" y="42" font-size="14" text-anchor="middle">-</text>
</g>
<g id="key-equals">
  <rect x="574" y="10" width="45" height="40" rx="6" fill="url(#keyGrad)" stroke="black" />
  <text x="596.5" y="22" font-size="10" text-anchor="middle">+</text>
  <text x="596.5" y="42" font-size="14" text-anchor="middle">=</text>
</g>
<g id="key-back">
  <rect x="621" y="10" width="80" height="40" rx="6" fill="url(#keyGrad)" stroke="black" />
  <text x="661.0" y="35.0" font-size="14" text-anchor="middle">Back</text>
</g>
<g id="key-tab">
  <rect x="10" y="55" width="65" height="40" rx="6" fill="url(#keyGrad)" stroke="black" />
  <text x="42.5" y="80.0" font-size="14" text-anchor="middle">Tab</text>
</g>
<g id="key-q">
  <rect x="77" y="55" width="45" height="40" rx="6" fill="url(#keyGrad)" stroke="black" />
  <text x="99.5" y="80.0" font-size="14" text-anchor="middle">Q</text>
</g>
<g id="key-w">
  <rect x="124" y="55" width="45" height="40" rx="6" fill="url(#keyGrad)" stroke="black" />
  <text x="146.5" y="80.0" font-size="14" text-anchor="middle">W</text>
</g>
<g id="key-e">
  <rect x="171" y="55" width="45" height="40" rx="6" fill="url(#keyGrad)" stroke="black" />
  <text x="193.5" y="80.0" font-size="14" text-anchor="middle">E</text>
</g>
<g id="key-r">
  <rect x="218" y="55" width="45" height="40" rx="6" fill="url(#keyGrad)" stroke="black" />
  <text x="240.5" y="80.0" font-size="14" text-anchor="middle">R</text>
</g>
<g id="key-t">
  <rect x="265" y="55" width="45" height="40" rx="6" fill="url(#keyGrad)" stroke="black" />
  <text x="287.5" y="80.0" font-size="14" text-anchor="middle">T</text>
</g>
<g id="key-y">
  <rect x="312" y="55" width="45" height="40" rx="6" fill="url(#keyGrad)" stroke="black" />
  <text x="334.5" y="80.0" font-size="14" text-anchor="middle">Y</text>
</g>
<g id="key-u">
<rect x="359" y="55" width="45" height="40" rx="6" fill="url(#keyGrad)" stroke="black" />
<text x="381.5" y="80.0" font-size="14" text-anchor="middle">U</text>
</g>
<g id="key-i">
  <rect x="406" y="55" width="45" height="40" rx="6" fill="url(#keyGrad)" stroke="black" />
  <text x="428.5" y="80.0" font-size="14" text-anchor="middle">I</text>
</g>
<g id="key-o">
  <rect x="453" y="55" width="45" height="40" rx="6" fill="url(#keyGrad)" stroke="black" />
  <text x="475.5" y="80.0" font-size="14" text-anchor="middle">O</text>
</g>
<g id="key-p">
  <rect x="500" y="55" width="45" height="40" rx="6" fill="url(#keyGrad)" stroke="black" />
  <text x="522.5" y="80.0" font-size="14" text-anchor="middle">P</text>
</g>
<g id="key-l-bracket">
  <rect x="547" y="55" width="45" height="40" rx="6" fill="url(#keyGrad)" stroke="black" />
  <text x="569.5" y="67" font-size="10" text-anchor="middle">{</text>
  <text x="569.5" y="87" font-size="14" text-anchor="middle">[</text>
</g>
<g id="key-r-bracket">
  <rect x="594" y="55" width="45" height="40" rx="6" fill="url(#keyGrad)" stroke="black" />
  <text x="616.5" y="67" font-size="10" text-anchor="middle">}</text>
  <text x="616.5" y="87" font-size="14" text-anchor="middle">]</text>
</g>
<g id="key-backslash">
  <rect x="641" y="55" width="59" height="40" rx="6" fill="url(#keyGrad)" stroke="black" />
  <text x="670.5" y="67" font-size="10" text-anchor="middle">|</text>
  <text x="670.5" y="87" font-size="14" text-anchor="middle">\</text>
</g>
<g id="key-caps">
  <rect x="10" y="100" width="75" height="40" rx="6" fill="url(#keyGrad)" stroke="black" />
  <text x="47.5" y="125.0" font-size="14" text-anchor="middle">Caps</text>
</g>
<g id="key-a">
  <rect x="87" y="100" width="45" height="40" rx="6" fill="url(#keyGrad)" stroke="black" />
  <text x="109.5" y="125.0" font-size="14" text-anchor="middle">A</text>
</g>
<g id="key-s">
  <rect x="134" y="100" width="45" height="40" rx="6" fill="url(#keyGrad)" stroke="black" />
  <text x="156.5" y="125.0" font-size="14" text-anchor="middle">S</text>
</g>
<g id="key-d">
  <rect x="181" y="100" width="45" height="40" rx="6" fill="url(#keyGrad)" stroke="black" />
  <text x="203.5" y="125.0" font-size="14" text-anchor="middle">D</text>
</g>
<g id="key-f">
  <rect x="228" y="100" width="45" height="40" rx="6" fill="url(#keyGrad)" stroke="black" />
  <text x="250.5" y="125.0" font-size="14" text-anchor="middle">F</text>
</g>
<g id="key-g">
  <rect x="275" y="100" width="45" height="40" rx="6" fill="url(#keyGrad)" stroke="black" />
  <text x="297.5" y="125.0" font-size="14" text-anchor="middle">G</text>
</g>
<g id="key-h">
  <rect x="322" y="100" width="45" height="40" rx="6" fill="url(#keyGrad)" stroke="black" />
  <text x="344.5" y="125.0" font-size="14" text-anchor="middle">H</text>
</g>
<g id="key-j">
  <rect x="369" y="100" width="45" height="40" rx="6" fill="url(#keyGrad)" stroke="black" />
  <text x="391.5" y="125.0" font-size="14" text-anchor="middle">J</text>
</g>
<g id="key-k">
  <rect x="416" y="100" width="45" height="40" rx="6" fill="url(#keyGrad)" stroke="black" />
  <text x="438.5" y="125.0" font-size="14" text-anchor="middle">K</text>
</g>
<g id="key-l">
  <rect x="463" y="100" width="45" height="40" rx="6" fill="url(#keyGrad)" stroke="black" />
  <text x="485.5" y="125.0" font-size="14" text-anchor="middle">L</text>
</g>
<g id="key-semicolon">
  <rect x="510" y="100" width="45" height="40" rx="6" fill="url(#keyGrad)" stroke="black" />
  <text x="532.5" y="112" font-size="10" text-anchor="middle">:</text>
  <text x="532.5" y="132" font-size="14" text-anchor="middle">;</text>
</g>
<g id="key-s-quote">
  <rect x="557" y="100" width="45" height="40" rx="6" fill="url(#keyGrad)" stroke="black" />
  <text x="579.5" y="112" font-size="10" text-anchor="middle">&quot;</text>
  <text x="579.5" y="132" font-size="14" text-anchor="middle">'</text>
</g>
<g id="key-enter">
  <rect x="604" y="100" width="96" height="40" rx="6" fill="url(#keyGrad)" stroke="black" />
  <text x="652.0" y="125.0" font-size="14" text-anchor="middle">Enter</text>
</g>
<g id="key-shift-left">
  <rect x="10" y="145" width="90" height="40" rx="6" fill="url(#keyGrad)" stroke="black" />
  <text x="55.0" y="170.0" font-size="14" text-anchor="middle">Shift</text>
</g>
<g id="key-z">
  <rect x="102" y="145" width="45" height="40" rx="6" fill="url(#keyGrad)" stroke="black" />
  <text x="124.5" y="170.0" font-size="14" text-anchor="middle">Z</text>
</g>
<g id="key-x">
  <rect x="149" y="145" width="45" height="40" rx="6" fill="url(#keyGrad)" stroke="black" />
  <text x="171.5" y="170.0" font-size="14" text-anchor="middle">X</text>
</g>
<g id="key-c">
  <rect x="196" y="145" width="45" height="40" rx="6" fill="url(#keyGrad)" stroke="black" />
  <text x="218.5" y="170.0" font-size="14" text-anchor="middle">C</text>
</g>
<g id="key-v">
  <rect x="243" y="145" width="45" height="40" rx="6" fill="url(#keyGrad)" stroke="black" />
  <text x="265.5" y="170.0" font-size="14" text-anchor="middle">V</text>
</g>
<g id="key-b">
  <rect x="290" y="145" width="45" height="40" rx="6" fill="url(#keyGrad)" stroke="black" />
  <text x="312.5" y="170.0" font-size="14" text-anchor="middle">B</text>
</g>
<g id="key-n">
  <rect x="337" y="145" width="45" height="40" rx="6" fill="url(#keyGrad)" stroke="black" />
  <text x="359.5" y="170.0" font-size="14" text-anchor="middle">N</text>
</g>
<g id="key-m">
  <rect x="384" y="145" width="45" height="40" rx="6" fill="url(#keyGrad)" stroke="black" />
  <text x="406.5" y="170.0" font-size="14" text-anchor="middle">M</text>
</g>
<g id="key-comma">
  <rect x="431" y="145" width="45" height="40" rx="6" fill="url(#keyGrad)" stroke="black" />
  <text x="453.5" y="157" font-size="10" text-anchor="middle">&lt;</text>
  <text x="453.5" y="177" font-size="14" text-anchor="middle">,</text>
</g>
<g id="key-period">
  <rect x="478" y="145" width="45" height="40" rx="6" fill="url(#keyGrad)" stroke="black" />
  <text x="500.5" y="157" font-size="10" text-anchor="middle">&gt;</text>
  <text x="500.5" y="177" font-size="14" text-anchor="middle">.</text>
</g>
<g id="key-slash">
  <rect x="525" y="145" width="45" height="40" rx="6" fill="url(#keyGrad)" stroke="black" />
  <text x="547.5" y="157" font-size="10" text-anchor="middle">?</text>
  <text x="547.5" y="177" font-size="14" text-anchor="middle">/</text>
</g>
<g id="key-shift-right">
  <rect x="572" y="145" width="128" height="40" rx="6" fill="url(#keyGrad)" stroke="black" />
  <text x="636.0" y="170.0" font-size="14" text-anchor="middle">Shift</text>
</g>
<g id="key-ctrl-left">
  <rect x="10" y="190" width="60" height="40" rx="6" fill="url(#keyGrad)" stroke="black" />
  <text x="40.0" y="215.0" font-size="14" text-anchor="middle">Ctrl</text>
</g>
<g id="key-win-left">
  <rect x="72" y="190" width="60" height="40" rx="6" fill="url(#keyGrad)" stroke="black" />
  <text x="102.0" y="215.0" font-size="14" text-anchor="middle">Win</text>
</g>
<g id="key-alt-left">
  <rect x="134" y="190" width="60" height="40" rx="6" fill="url(#keyGrad)" stroke="black" />
  <text x="164.0" y="215.0" font-size="14" text-anchor="middle">Alt</text>
</g>
<g id="key-space">
  <rect x="196" y="190" width="256" height="40" rx="6" fill="url(#keyGrad)" stroke="black" />
  <text x="324.0" y="215.0" font-size="14" text-anchor="middle">Space</text>
</g>
<g id="key-alt-right">
  <rect x="454" y="190" width="60" height="40" rx="6" fill="url(#keyGrad)" stroke="black" />
  <text x="484.0" y="215.0" font-size="14" text-anchor="middle">Alt</text>
</g>
<g id="key-fn">
  <rect x="516" y="190" width="60" height="40" rx="6" fill="url(#keyGrad)" stroke="black" />
  <text x="546.0" y="215.0" font-size="14" text-anchor="middle">FN</text>
</g>
<g id="key-menu">
  <rect x="578" y="190" width="60" height="40" rx="6" fill="url(#keyGrad)" stroke="black" />
  <text x="608.0" y="215.0" font-size="14" text-anchor="middle">Menu</text>
</g>
<g id="key-ctrl-right">
  <rect x="640" y="190" width="60" height="40" rx="6" fill="url(#keyGrad)" stroke="black" />
  <text x="670.0" y="215.0" font-size="14" text-anchor="middle">Ctrl</text>
</g>
</svg>
"###);
    reveal_strlit("<g id=\"");
    reveal_strlit("\">");
    reveal_strlit("key-");
    reveal_strlit("key-tilde");
    reveal_strlit("key-1");
    reveal_strlit("key-2");
    reveal_strlit("key-3");
    reveal_strlit("key-4");
    reveal_strlit("key-5");
    reveal_strlit("key-6");
    reveal_strlit("key-7");
    reveal_strlit("key-8");
    reveal_strlit("key-9");
    reveal_strlit("key-0");
    reveal_strlit("key-minus");
    reveal_strlit("key-equals");
    reveal_strlit("key-l-bracket");
    reveal_strlit("key-r-bracket");
    reveal_strlit("key-backslash");
    reveal_strlit("key-semicolon");
    reveal_strlit("key-s-quote");
    reveal_strlit("key-comma");
    reveal_strlit("key-period");
    reveal_strlit("key-slash");
    reveal_strlit("key-shift-left");
    let tag = group_tag(key_id_of(c));
    let at = group_start(c);
    assert(SVG_KEYBOARD@.subrange(at, at + tag.len()) =~= tag);
    assert(occurs_at(SVG_KEYBOARD@, tag, at));
    let shift_tag = group_tag(SHIFT_KEY_ID@);
    let shift_at = 9191int;
    assert(SVG_KEYBOARD@.subrange(shift_at, shift_at + shift_tag.len()) =~= shift_tag);
    assert(occurs_at(SVG_KEYBOARD@, shift_tag, shift_at));
}

} // verus!

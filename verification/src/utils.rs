//! Checks of single keys, and the text of the start screen.

use crate::middleware::listed;
use crate::structs::{AppState, CargoPkgInfo};
use vstd::prelude::*;
use vstd::string::StringExecFns;
use vstd::utf8::{encode_utf8, encode_utf8_decode_utf8};

verus! {

/// Whether `key` is, character for character, one of `keys`.
pub open spec fn holds_key(keys: Seq<String>, key: Seq<char>) -> bool {
    exists|i: int| 0 <= i < keys.len() && (#[trigger] keys[i])@ == key
}

/// A key given as text is listed exactly if its bytes are: the guard's
/// comparison of bytes and the comparison of characters agree.
pub proof fn law_key_text_and_bytes(keys: Seq<String>, key: Seq<char>)
    ensures
        holds_key(keys, key) == listed(keys, encode_utf8(key)),
{
    if holds_key(keys, key) {
        let i = choose|i: int| 0 <= i < keys.len() && (#[trigger] keys[i])@ == key;
        assert(encode_utf8(keys[i]@) == encode_utf8(key));
    }
    if listed(keys, encode_utf8(key)) {
        let i = choose|i: int|
            0 <= i < keys.len() && encode_utf8((#[trigger] keys[i])@) == encode_utf8(key);
        encode_utf8_decode_utf8(keys[i]@);
        encode_utf8_decode_utf8(key);
        assert(keys[i]@ == key);
    }
}

/// Whether `key` is on the allow-list of `app_state`.
pub fn validate_api_key(app_state: &AppState, key: &String) -> (valid: bool)
    ensures
        valid == holds_key(app_state.api_keys@, key@),
        valid == listed(app_state.api_keys@, encode_utf8(key@)),
{
    proof {
        law_key_text_and_bytes(app_state.api_keys@, key@);
    }
    let mut i: usize = 0;
    while i < app_state.api_keys.len()
        invariant
            i <= app_state.api_keys.len(),
            forall|j: int| 0 <= j < i ==> (#[trigger] app_state.api_keys@[j])@ != key@,
        decreases app_state.api_keys.len() - i,
    {
        if app_state.api_keys[i] == *key {
            return true;
        }
        i += 1;
    }
    false
}

/// The name of the program, drawn in characters.
pub open spec fn ascii_name() -> Seq<char> {
    r#"     ____                        
    / ___|___  _ __   __ _  __ _ 
   | |   / _ \| '_ \ / _` |/ _` |
   | |__| (_) | | | | (_| | (_| |
    \____\___/|_| |_|\__, |\__,_|
                     |___/       "#@
}

/// The start screen: the name of the program with the version behind it,
/// the authors, and a rule below them.
pub open spec fn start_screen_text(package_info: CargoPkgInfo) -> Seq<char> {
    ascii_name() + " v"@ + package_info.version@ + "\n\n   Created by "@ + package_info.authors@
        + "\n==================================================\n"@
}

/// The text of the start screen for the given package.
pub fn start_screen(package_info: &CargoPkgInfo) -> (screen: String)
    ensures
        screen@ == start_screen_text(*package_info),
{
    let ascii_name = r#"     ____                        
    / ___|___  _ __   __ _  __ _ 
   | |   / _ \| '_ \ / _` |/ _` |
   | |__| (_) | | | | (_| | (_| |
    \____\___/|_| |_|\__, |\__,_|
                     |___/       "#;
    let mut screen = String::from_str(ascii_name);
    screen.append(" v");
    screen.append(package_info.version.as_str());
    screen.append("\n\n   Created by ");
    screen.append(package_info.authors.as_str());
    screen.append("\n==================================================\n");
    screen
}

} // verus!

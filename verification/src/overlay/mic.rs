//! The name of the microphone, as the overlay shows it.
use vstd::prelude::*;
use vstd::string::*;
use vstd::utf8::*;

use crate::config;
use crate::text::{self, CharClass};

verus! {

/// A name that says nothing about the device.
pub open spec fn is_placeholder(name: Seq<char>) -> bool {
    let n = text::lowered(text::trimmed(name));
    ||| n == ""@
    ||| n == "default"@
    ||| n == "default input"@
    ||| n == "pipewire"@
}

/// Whether a name says nothing about the device.
pub fn is_placeholder_device_name(name: &str) -> (r: bool)
    ensures
        r == is_placeholder(name@),
{
    let trimmed = text::trim(name);
    let n = text::lowercase(trimmed.as_str());
    let n = n.as_str();
    text::same(n, "") || text::same(n, "default") || text::same(n, "default input") || text::same(
        n,
        "pipewire",
    )
}

/// The value that a line gives for `key`: what follows the equals sign, without quotes, unless it
/// says nothing about the device.
pub open spec fn line_value(line: Seq<char>, key: Seq<char>) -> Option<Seq<char>> {
    let trimmed = text::trimmed(line);
    if !text::begins_with(trimmed, key) {
        None
    } else {
        match text::after_class(trimmed, CharClass::Equals) {
            Some(rest) => {
                let value = text::trimmed(
                    text::trim_class(text::trimmed(rest), CharClass::Quote),
                );
                if is_placeholder(value) {
                    None
                } else {
                    Some(value)
                }
            },
            None => None,
        }
    }
}

/// The value that the first of the lines gives that gives one.
pub open spec fn first_value(lines: Seq<Seq<char>>, key: Seq<char>) -> Option<Seq<char>>
    decreases lines.len(),
{
    if lines.len() == 0 {
        None
    } else {
        match line_value(lines[0], key) {
            Some(v) => Some(v),
            None => first_value(lines.drop_first(), key),
        }
    }
}

fn value_in_line(line: &str, key: &str) -> (r: Option<String>)
    ensures
        config::opt_view(r) == line_value(line@, key@),
{
    let trimmed = text::trim(line);
    if !text::starts_with(trimmed.as_str(), key) {
        return None;
    }
    match text::split_after(trimmed.as_str(), CharClass::Equals) {
        Some(rest) => {
            let value = text::trim(rest.as_str());
            let value = text::trim_both(value.as_str(), CharClass::Quote);
            let value = text::trim(value.as_str());
            if is_placeholder_device_name(value.as_str()) {
                None
            } else {
                Some(value)
            }
        },
        None => None,
    }
}

/// The value that `wpctl inspect` printed for `key`.
pub fn parse_wpctl_field(output: &str, key: &str) -> (r: Option<String>)
    ensures
        config::opt_view(r) == first_value(text::lines_of(output@), key@),
{
    let lines = text::lines(output);
    let mut i: usize = 0;
    assert(text::views(lines@).skip(0) =~= text::views(lines@));
    while i < lines.len()
        invariant
            i <= lines@.len(),
            text::views(lines@) == text::lines_of(output@),
            first_value(text::views(lines@), key@) == first_value(
                text::views(lines@).skip(i as int),
                key@,
            ),
        decreases lines@.len() - i,
    {
        let ghost rest = text::views(lines@).skip(i as int);
        assert(rest[0] == lines@[i as int]@);
        assert(rest.drop_first() =~= text::views(lines@).skip(i + 1));
        let value = value_in_line(lines[i].as_str(), key);
        if value.is_some() {
            return value;
        }
        i += 1;
    }
    None
}

/// The name of the default source: its description, its nickname or the description of its device,
/// whichever is the first that says something.
pub open spec fn source_name(output: Seq<char>) -> Option<Seq<char>> {
    let lines = text::lines_of(output);
    let description = first_value(lines, "node.description"@);
    let nick = first_value(lines, "node.nick"@);
    if description is Some {
        description
    } else if nick is Some {
        nick
    } else {
        first_value(lines, "device.description"@)
    }
}

/// The name of the default source, from what `wpctl inspect` printed. Nothing where the command
/// failed or printed no text.
pub fn default_source_name_from_wpctl(success: bool, stdout: Vec<u8>) -> (r: Option<String>)
    ensures
        config::opt_view(r) == (if success && valid_utf8(stdout@) {
            source_name(decode_utf8(stdout@))
        } else {
            None
        }),
{
    if !success {
        return None;
    }
    match text::utf8_text(stdout) {
        Some(output) => {
            let description = parse_wpctl_field(output.as_str(), "node.description");
            if description.is_some() {
                return description;
            }
            let nick = parse_wpctl_field(output.as_str(), "node.nick");
            if nick.is_some() {
                return nick;
            }
            parse_wpctl_field(output.as_str(), "device.description")
        },
        None => None,
    }
}

/// The first characters of a name, at most `max` of them.
pub open spec fn first_chars(name: Seq<char>, max: nat) -> Seq<char> {
    if name.len() <= max {
        name
    } else {
        name.take(max as int)
    }
}

/// The first characters of a name, at most `max_chars` of them.
pub fn short_mic_label(name: &str, max_chars: usize) -> (r: String)
    ensures
        r@ == first_chars(name@, max_chars as nat),
{
    let v = text::chars_of(name);
    let n: usize = if v.len() <= max_chars {
        v.len()
    } else {
        max_chars
    };
    let r = text::text_of(&v, 0, n);
    assert(r@ =~= first_chars(name@, max_chars as nat));
    r
}

/// The first of the names that says something about its device, without blanks at its ends.
pub open spec fn first_telling(names: Seq<Seq<char>>) -> Option<Seq<char>>
    decreases names.len(),
{
    if names.len() == 0 {
        None
    } else if !is_placeholder(text::trimmed(names[0])) {
        Some(text::trimmed(names[0]))
    } else {
        first_telling(names.drop_first())
    }
}

/// The name of the microphone in use: the default source if it has a name, otherwise the first of
/// the devices, the default device leading, whose name says something. `devices` are the names of
/// the devices that have one.
pub fn detect_active_mic_name(source: Option<String>, devices: &Vec<String>) -> (r: Option<String>)
    ensures
        config::opt_view(r) == (match source {
            Some(s) => Some(s@),
            None => first_telling(text::views(devices@)),
        }),
{
    if source.is_some() {
        return source;
    }
    let mut i: usize = 0;
    assert(text::views(devices@).skip(0) =~= text::views(devices@));
    while i < devices.len()
        invariant
            i <= devices@.len(),
            source is None,
            first_telling(text::views(devices@)) == first_telling(
                text::views(devices@).skip(i as int),
            ),
        decreases devices@.len() - i,
    {
        let ghost rest = text::views(devices@).skip(i as int);
        assert(rest[0] == devices@[i as int]@);
        assert(rest.drop_first() =~= text::views(devices@).skip(i + 1));
        let trimmed = text::trim(devices[i].as_str());
        if !is_placeholder_device_name(trimmed.as_str()) {
            return Some(trimmed);
        }
        i += 1;
    }
    None
}

} // verus!

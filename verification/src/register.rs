//! Registration of the COM server and the text service profile, and the checks on the target
//! that an installer may ask to be restored.

use vstd::prelude::*;
use vstd::string::*;
use vstd::utf8::{char_u32_cast, encode_utf8};
use crate::text::{chars_of, joined};
use crate::utf16::{decode_utf16, decoding_undoes_encoding, units_of, utf16_of, utf16_text};

verus! {

/// The longest install root, in bytes.
pub const MAX_ROOT_BYTES: usize = 1024;

/// `E_FAIL` as the unsigned bits of its `HRESULT`.
pub const E_FAIL: u32 = 0x8000_4005;

/// `E_INVALIDARG` as the unsigned bits of its `HRESULT`.
pub const E_INVALIDARG: u32 = 0x8007_0057;

/// `ERROR_FILE_NOT_FOUND` as an `HRESULT`.
pub const FILE_NOT_FOUND: u32 = 0x8007_0002;

/// `ERROR_PATH_NOT_FOUND` as an `HRESULT`.
pub const PATH_NOT_FOUND: u32 = 0x8007_0003;

/// What `semver::Version::parse` accepts.
pub uninterp spec fn is_semver(text: Seq<char>) -> bool;

/// A character that can stand in a version.
pub open spec fn version_char(c: char) -> bool {
    ('0' <= c && c <= '9') || ('A' <= c && c <= 'Z') || ('a' <= c && c <= 'z') || c == '.' || c
        == '-' || c == '+'
}

/// Calls `semver::Version::parse` and says whether it accepted the text. Claimed: the answer
/// depends on the text alone, and an accepted text is not empty and holds only letters, digits,
/// dots, hyphens and plus signs. Texts of more than a thousand characters are left out, because
/// the parser panics on identifiers that exceed what it can store.
#[verifier::external_body]
fn parses_as_version(text: &str) -> (r: bool)
    requires
        text@.len() <= MAX_ROOT_BYTES,
    ensures
        r == is_semver(text@),
        r ==> text@.len() > 0 && forall|i: int| 0 <= i < text@.len() ==> version_char(
            #[trigger] text@[i],
        ),
{
    semver::Version::parse(text).is_ok()
}

/// Two characters that differ at most in the case of an ASCII letter.
pub open spec fn same_letter(a: char, b: char) -> bool {
    ||| a == b
    ||| 'A' <= a && a <= 'Z' && b as u32 == a as u32 + 32
    ||| 'A' <= b && b <= 'Z' && a as u32 == b as u32 + 32
}

/// Two texts that differ at most in the case of ASCII letters.
pub open spec fn same_ignoring_case(a: Seq<char>, b: Seq<char>) -> bool {
    a.len() == b.len() && forall|i: int| 0 <= i < a.len() ==> same_letter(#[trigger] a[i], b[i])
}

fn letters_match(a: char, b: char) -> (r: bool)
    ensures
        r == same_letter(a, b),
{
    let x: u32 = a as u32;
    let y: u32 = b as u32;
    a == b || ('A' <= a && a <= 'Z' && y == x + 32) || ('A' <= b && b <= 'Z' && x == y + 32)
}

/// Whether the part of `text` that begins at `from` is `pattern`, ignoring the case of ASCII
/// letters.
fn matches_at(text: &[char], from: usize, pattern: &[char]) -> (r: bool)
    requires
        from + pattern@.len() <= text@.len(),
    ensures
        r == same_ignoring_case(
            text@.subrange(from as int, from + pattern@.len()),
            pattern@,
        ),
{
    let ghost part = text@.subrange(from as int, from + pattern@.len());
    let len: usize = text.len();
    let mut i: usize = 0;
    while i < pattern.len()
        invariant
            i <= pattern@.len(),
            from + pattern@.len() <= text@.len() == len,
            part == text@.subrange(from as int, from + pattern@.len()),
            forall|k: int| 0 <= k < i ==> same_letter(#[trigger] part[k], pattern@[k]),
        decreases pattern@.len() - i,
    {
        if !letters_match(text[from + i], pattern[i]) {
            assert(!same_letter(part[i as int], pattern@[i as int]));
            return false;
        }
        i = i + 1;
    }
    true
}

/// A part of a path ends before position `i`.
pub open spec fn part_ends(s: Seq<char>, i: int) -> bool {
    0 <= i <= s.len() && (i == s.len() || s[i] == '\\')
}

/// An absolute path on a drive, of bounded length, without streams or forward slashes, every
/// part of which is not empty and ends in neither a dot nor a space.
pub open spec fn is_install_root(s: Seq<char>) -> bool {
    &&& 4 <= encode_utf8(s).len() <= MAX_ROOT_BYTES
    &&& s.len() >= 3
    &&& (('A' <= s[0] && s[0] <= 'Z') || ('a' <= s[0] && s[0] <= 'z'))
    &&& s[1] == ':'
    &&& s[2] == '\\'
    &&& forall|i: int| 0 <= i < s.len() ==> #[trigger] s[i] != '/'
    &&& forall|i: int| 2 <= i < s.len() ==> #[trigger] s[i] != ':'
    &&& forall|i: int|
        3 <= i <= s.len() && #[trigger] part_ends(s, i) ==> s[i - 1] != '\\' && s[i - 1] != '.'
            && s[i - 1] != ' '
}

/// Whether the text can be the root of an installation.
pub fn valid_install_root(root: &str) -> (r: bool)
    ensures
        r == is_install_root(root@),
{
    let bytes: usize = root.as_bytes().len();
    if bytes < 4 || bytes > MAX_ROOT_BYTES {
        return false;
    }
    let s = chars_of(root);
    if s.len() < 3 {
        return false;
    }
    let first = s[0];
    if !(('A' <= first && first <= 'Z') || ('a' <= first && first <= 'z')) || s[1] != ':' || s[2]
        != '\\' {
        return false;
    }
    let mut i: usize = 3;
    while i < s.len()
        invariant
            3 <= i <= s.len(),
            s@ == root@,
            s@[2] == '\\',
            forall|k: int| 2 <= k < i ==> #[trigger] s@[k] != '/' && s@[k] != ':',
            forall|k: int|
                3 <= k < i && #[trigger] part_ends(s@, k) ==> s@[k - 1] != '\\' && s@[k - 1]
                    != '.' && s@[k - 1] != ' ',
        decreases s.len() - i,
    {
        let c = s[i];
        let p = s[i - 1];
        if c == '/' || c == ':' {
            assert(s@[i as int] == '/' || s@[i as int] == ':');
            return false;
        }
        if c == '\\' && (p == '\\' || p == '.' || p == ' ') {
            assert(part_ends(s@, i as int));
            return false;
        }
        i = i + 1;
    }
    let last = s[s.len() - 1];
    assert(part_ends(s@, s@.len() as int));
    assert(s@[0] != '/' && s@[1] != '/');
    !(last == '\\' || last == '.' || last == ' ')
}

/// The part of a path before its last separator.
pub open spec fn parent_of(s: Seq<char>) -> Option<Seq<char>>
    decreases s.len(),
{
    if s.len() == 0 {
        None
    } else if s.last() == '\\' {
        Some(s.drop_last())
    } else {
        parent_of(s.drop_last())
    }
}

proof fn parent_is_at(s: Seq<char>, at: int)
    requires
        0 <= at < s.len(),
        s[at] == '\\',
        forall|k: int| at < k < s.len() ==> #[trigger] s[k] != '\\',
    ensures
        parent_of(s) == Some(s.take(at)),
    decreases s.len(),
{
    if at == s.len() - 1 {
        assert(s.drop_last() == s.take(at));
    } else {
        parent_is_at(s.drop_last(), at);
        assert(s.drop_last().take(at) == s.take(at));
    }
}

proof fn parent_is_none(s: Seq<char>)
    requires
        forall|k: int| 0 <= k < s.len() ==> #[trigger] s[k] != '\\',
    ensures
        parent_of(s) is None,
    decreases s.len(),
{
    if s.len() > 0 {
        parent_is_none(s.drop_last());
    }
}

/// A text has at least as many bytes as characters.
proof fn bytes_cover_chars(s: Seq<char>)
    ensures
        s.len() <= encode_utf8(s).len(),
    decreases s.len(),
{
    if s.len() > 0 {
        bytes_cover_chars(s.drop_first());
    }
}

/// The file of the product, behind a separator.
pub open spec fn product_file() -> Seq<char> {
    "\\nospacekey_tip.dll"@
}

/// The directory of the versions, between separators.
pub open spec fn versions_directory() -> Seq<char> {
    "\\versions\\"@
}

/// The target is the product's file right under the root.
pub open spec fn is_legacy_target(target: Seq<char>, root: Seq<char>) -> bool {
    same_ignoring_case(target, root + product_file())
}

/// The target is the product's file under a version directory of the root.
pub open spec fn is_versioned_target(target: Seq<char>, root: Seq<char>) -> bool {
    let prefix = root + versions_directory();
    let end = target.len() - product_file().len();
    &&& prefix.len() <= end
    &&& same_ignoring_case(target.subrange(0, prefix.len() as int), prefix)
    &&& same_ignoring_case(target.subrange(end, target.len() as int), product_file())
    &&& is_semver(target.subrange(prefix.len() as int, end))
}

/// The target is one that an installation under the root can have registered.
pub open spec fn is_product_target(target: Seq<char>, root: Seq<char>) -> bool {
    &&& is_install_root(root)
    &&& parent_of(target) is Some
    &&& is_install_root(parent_of(target)->0)
    &&& forall|i: int| 0 <= i < target.len() ==> #[trigger] target[i] != '/'
    &&& forall|i: int| 2 <= i < target.len() ==> #[trigger] target[i] != ':'
    &&& is_legacy_target(target, root) || is_versioned_target(target, root)
}

/// The separator that opens the product's file name is the last one of the target.
proof fn product_file_opens_the_last_part(target: Seq<char>, end: int)
    requires
        end == target.len() - product_file().len(),
        0 <= end,
        same_ignoring_case(target.subrange(end, target.len() as int), product_file()),
    ensures
        parent_of(target) == Some(target.take(end)),
{
    reveal_strlit("\\nospacekey_tip.dll");
    let tail = target.subrange(end, target.len() as int);
    assert(same_letter(tail[0], product_file()[0]));
    assert(target[end] == '\\');
    assert forall|k: int| end < k < target.len() implies #[trigger] target[k] != '\\' by {
        assert(same_letter(tail[k - end], product_file()[k - end]));
    }
    parent_is_at(target, end);
}

/// Gives back a target that an installation under the root can have registered and whose file
/// exists. The file is asked for only if the target has the right form.
pub fn restore_target_for_root_with<F: FnOnce(&str) -> bool>(
    target: &str,
    install_root: &str,
    file_exists: F,
) -> (r: Option<String>)
    requires
        is_product_target(target@, install_root@) ==> file_exists.requires((target,)),
    ensures
        !is_product_target(target@, install_root@) ==> r is None,
        is_product_target(target@, install_root@) ==> file_exists.ensures((target,), r is Some),
        r is Some ==> r->0@ == target@,
        r is Some && !is_legacy_target(target@, install_root@) ==> forall|i: int|
            install_root@.len() + versions_directory().len() <= i < target@.len()
                - product_file().len() ==> version_char(#[trigger] target@[i]),
{
    if !valid_install_root(install_root) {
        return None;
    }
    let t = chars_of(target);
    let n: usize = t.len();
    let mut at: usize = n;
    while at > 0
        invariant_except_break
            at <= n,
            n == t.len(),
            forall|k: int| at <= k < n ==> #[trigger] t@[k] != '\\',
        ensures
            at <= n,
            at == 0 ==> forall|k: int| 0 <= k < n ==> #[trigger] t@[k] != '\\',
            at > 0 ==> t@[at - 1] == '\\' && forall|k: int| at <= k < n ==> #[trigger] t@[k]
                != '\\',
        decreases at,
    {
        if t[at - 1] == '\\' {
            break;
        }
        at = at - 1;
    }
    if at == 0 {
        proof {
            parent_is_none(target@);
        }
        return None;
    }
    proof {
        parent_is_at(target@, at - 1);
    }
    let parent = target.substring_char(0, at - 1);
    assert(parent@ == target@.take(at - 1));
    if !valid_install_root(parent) {
        return None;
    }
    let mut i: usize = 0;
    while i < n
        invariant
            i <= n,
            n == t.len(),
            t@ == target@,
            forall|k: int| 0 <= k < i ==> #[trigger] t@[k] != '/',
            forall|k: int| 2 <= k < i ==> #[trigger] t@[k] != ':',
        decreases n - i,
    {
        if t[i] == '/' || (i >= 2 && t[i] == ':') {
            assert(t@[i as int] == '/' || t@[i as int] == ':');
            return None;
        }
        i = i + 1;
    }
    let legacy = chars_of(joined(install_root, "\\nospacekey_tip.dll").as_str());
    let prefix = chars_of(joined(install_root, "\\versions\\").as_str());
    let suffix = chars_of("\\nospacekey_tip.dll");
    proof {
        assert(target@.subrange(0, n as int) == target@);
    }
    let mut fits = n == legacy.len() && matches_at(t.as_slice(), 0, legacy.as_slice());
    if !fits && n >= suffix.len() {
        let end: usize = n - suffix.len();
        if prefix.len() <= end && matches_at(t.as_slice(), 0, prefix.as_slice()) && matches_at(
            t.as_slice(),
            end,
            suffix.as_slice(),
        ) {
            proof {
                product_file_opens_the_last_part(target@, end as int);
                bytes_cover_chars(parent@);
            }
            let version = target.substring_char(prefix.len(), end);
            fits = parses_as_version(version);
            assert(fits ==> forall|i: int|
                prefix.len() <= i < end ==> version_char(#[trigger] target@[i])) by {
                assert forall|i: int| fits && prefix.len() <= i < end implies version_char(
                    #[trigger] target@[i],
                ) by {
                    assert(version_char(version@[i - prefix.len()]));
                }
            }
        }
    }
    if !fits {
        return None;
    }
    if file_exists(target) {
        Some(target.to_owned())
    } else {
        None
    }
}

/// A target that passes is the product's own file, right under the root or under its versions.
pub proof fn a_restored_target_has_one_of_two_forms(target: Seq<char>, root: Seq<char>)
    requires
        is_product_target(target, root),
    ensures
        is_install_root(root),
        parent_of(target) is Some,
        is_legacy_target(target, root) ==> target.len() == root.len() + product_file().len()
            && parent_of(target) == Some(target.take(root.len() as int)) && same_ignoring_case(
            target.take(root.len() as int),
            root,
        ),
        is_versioned_target(target, root) ==> parent_of(target) == Some(
            target.take(target.len() - product_file().len()),
        ) && same_ignoring_case(target.take(root.len() as int), root),
{
    reveal_strlit("\\nospacekey_tip.dll");
    reveal_strlit("\\versions\\");
    if is_legacy_target(target, root) {
        let full = root + product_file();
        let end = target.len() - product_file().len();
        let tail = target.subrange(end, target.len() as int);
        assert forall|k: int| 0 <= k < tail.len() implies same_letter(
            #[trigger] tail[k],
            product_file()[k],
        ) by {
            assert(same_letter(target[end + k], full[end + k]));
        }
        product_file_opens_the_last_part(target, end);
        assert forall|k: int| 0 <= k < root.len() implies same_letter(
            #[trigger] target.take(root.len() as int)[k],
            root[k],
        ) by {
            assert(same_letter(target[k], full[k]));
        }
    }
    if is_versioned_target(target, root) {
        let prefix = root + versions_directory();
        let end = target.len() - product_file().len();
        product_file_opens_the_last_part(target, end);
        assert forall|k: int| 0 <= k < root.len() implies same_letter(
            #[trigger] target.take(root.len() as int)[k],
            root[k],
        ) by {
            assert(same_letter(target.subrange(0, prefix.len() as int)[k], prefix[k]));
        }
    }
}

/// The value of a hexadecimal digit.
pub open spec fn hex_value(c: char) -> Option<int> {
    if '0' <= c && c <= '9' {
        Some(c as int - '0' as int)
    } else if 'a' <= c && c <= 'f' {
        Some(c as int - 'a' as int + 10)
    } else if 'A' <= c && c <= 'F' {
        Some(c as int - 'A' as int + 10)
    } else {
        None
    }
}

pub(crate) fn hex_digit(c: char) -> (r: Option<u16>)
    ensures
        r is Some <==> hex_value(c) is Some,
        r is Some ==> r->0 == hex_value(c)->0 && r->0 < 16,
{
    let v: u32 = c as u32;
    if '0' <= c && c <= '9' {
        Some((v - 0x30) as u16)
    } else if 'a' <= c && c <= 'f' {
        Some((v - 0x61 + 10) as u16)
    } else if 'A' <= c && c <= 'F' {
        Some((v - 0x41 + 10) as u16)
    } else {
        None
    }
}

/// The number that four hexadecimal digits write.
pub open spec fn hex_unit(s: Seq<char>, at: int) -> int {
    hex_value(s[at])->0 * 4096 + hex_value(s[at + 1])->0 * 256 + hex_value(s[at + 2])->0 * 16
        + hex_value(s[at + 3])->0
}

/// A text of whole groups of four hexadecimal digits.
pub open spec fn is_hex_text(s: Seq<char>) -> bool {
    s.len() % 4 == 0 && forall|i: int| 0 <= i < s.len() ==> hex_value(#[trigger] s[i]) is Some
}

/// The numbers that the groups write.
pub open spec fn hex_units(s: Seq<char>) -> Seq<u16> {
    Seq::new(s.len() / 4, |k: int| hex_unit(s, 4 * k) as u16)
}

/// What a restore command starts with.
pub open spec fn restore_prefix() -> Seq<char> {
    "restore-utf16hex="@
}

/// The text that a restore command carries: hexadecimal UTF-16 without a zero unit.
pub open spec fn restore_text(command: Seq<char>) -> Option<Seq<char>> {
    let n = restore_prefix().len() as int;
    if command.len() <= n || command.take(n) != restore_prefix() {
        None
    } else {
        let hex = command.skip(n);
        if !is_hex_text(hex) || hex_units(hex).contains(0u16) {
            None
        } else {
            utf16_text(hex_units(hex))
        }
    }
}

/// Decodes a restore command. The text of the command has no character with a meaning to a
/// command line.
pub fn decode_restore_command(command: &str) -> (r: Option<String>)
    ensures
        crate::text::opt_view(r) == restore_text(command@),
{
    let c = chars_of(command);
    let prefix = chars_of("restore-utf16hex=");
    let start: usize = prefix.len();
    if c.len() <= start {
        return None;
    }
    let mut i: usize = 0;
    while i < start
        invariant
            i <= start == prefix.len() < c.len(),
            c@ == command@,
            prefix@ == restore_prefix(),
            forall|k: int| 0 <= k < i ==> c@[k] == prefix@[k],
        decreases start - i,
    {
        if c[i] != prefix[i] {
            assert(command@.take(start as int)[i as int] != restore_prefix()[i as int]);
            return None;
        }
        i = i + 1;
    }
    assert(command@.take(start as int) == restore_prefix());
    let ghost hex = command@.skip(start as int);
    assert(hex.len() == c.len() - start);
    if (c.len() - start) % 4 != 0 {
        return None;
    }
    let mut units: Vec<u16> = Vec::new();
    let mut at: usize = start;
    let mut zero = false;
    while at < c.len()
        invariant
            start <= at <= c.len(),
            start == restore_prefix().len(),
            c@ == command@,
            hex == command@.skip(start as int),
            hex.len() == c.len() - start,
            hex.len() % 4 == 0,
            at - start == 4 * units.len(),
            forall|k: int| 0 <= k < at - start ==> hex_value(#[trigger] hex[k]) is Some,
            forall|k: int|
                0 <= k < units.len() ==> (#[trigger] units@[k]) == hex_unit(hex, 4 * k)
                    && 0 <= hex_unit(hex, 4 * k) <= 0xFFFF,
            zero == units@.contains(0u16),
        decreases c.len() - at,
    {
        let ghost done = units@;
        let ghost base = at - start;
        assert(hex[base] == c@[at as int] && hex[base + 1] == c@[at + 1] && hex[base + 2] == c@[at
            + 2] && hex[base + 3] == c@[at + 3]);
        let a = hex_digit(c[at]);
        let b = hex_digit(c[at + 1]);
        let d = hex_digit(c[at + 2]);
        let e = hex_digit(c[at + 3]);
        match (a, b, d, e) {
            (Some(a), Some(b), Some(d), Some(e)) => {
                let unit: u16 = a * 4096 + b * 256 + d * 16 + e;
                assert(unit == hex_unit(hex, base));
                units.push(unit);
                if unit == 0 {
                    zero = true;
                }
                proof {
                    assert(units@.last() == unit);
                    assert(forall|k: int| 0 <= k < done.len() ==> units@[k] == done[k]);
                    if units@.contains(0u16) && unit != 0 {
                        let k = choose|k: int| 0 <= k < units@.len() && units@[k] == 0u16;
                        assert(done[k] == 0u16);
                    }
                    if done.contains(0u16) {
                        let k = choose|k: int| 0 <= k < done.len() && done[k] == 0u16;
                        assert(units@[k] == 0u16);
                    }
                    assert(unit == 0 ==> units@[units@.len() - 1] == 0u16);
                }
            },
            _ => {
                assert(hex_value(hex[base]) is None || hex_value(hex[base + 1]) is None
                    || hex_value(hex[base + 2]) is None || hex_value(hex[base + 3]) is None);
                return None;
            },
        }
        at = at + 4;
    }
    assert(units@ =~= hex_units(hex));
    if zero {
        return None;
    }
    decode_utf16(&units)
}

/// A globally unique name.
#[derive(Clone, Copy, Debug, PartialEq, Eq)]
pub struct Guid {
    pub data1: u32,
    pub data2: u16,
    pub data3: u16,
    pub data4: [u8; 8],
}

/// The capital hexadecimal digit of a value below sixteen.
pub open spec fn hex_char(v: int) -> char {
    if v < 10 {
        (('0' as u32 + v) as u32) as char
    } else {
        (('A' as u32 + v - 10) as u32) as char
    }
}

/// The value in `width` capital hexadecimal digits.
pub open spec fn hex_padded(value: nat, width: nat) -> Seq<char>
    decreases width,
{
    if width == 0 {
        Seq::empty()
    } else {
        hex_padded(value / 16, (width - 1) as nat).push(hex_char((value % 16) as int))
    }
}

fn push_hex(out: &mut String, value: u32, width: usize)
    ensures
        final(out)@ == old(out)@ + hex_padded(value as nat, width as nat),
    decreases width,
{
    if width > 0 {
        push_hex(out, value / 16, width - 1);
        let digit: u8 = (value % 16) as u8;
        let c: char = if digit < 10 {
            (48 + digit) as char
        } else {
            (55 + digit) as char
        };
        assert(c == hex_char((value % 16) as int));
        out.push(c);
    }
}

/// The groups of four hexadecimal digits that write the units.
pub open spec fn hex_of_units(units: Seq<u16>) -> Seq<char>
    decreases units.len(),
{
    if units.len() == 0 {
        Seq::empty()
    } else {
        hex_of_units(units.drop_last()) + hex_padded(units.last() as nat, 4)
    }
}

/// The restore command for a path.
pub open spec fn restore_command(path: Seq<char>) -> Seq<char> {
    restore_prefix() + hex_of_units(utf16_of(path))
}

proof fn a_digit_has_its_value(v: int)
    requires
        0 <= v < 16,
    ensures
        hex_value(hex_char(v)) == Some(v),
{
    if v < 10 {
        char_u32_cast(hex_char(v), (48 + v) as u32);
    } else {
        char_u32_cast(hex_char(v), (55 + v) as u32);
    }
}

proof fn a_group_has_its_value(u: u16)
    ensures
        hex_padded(u as nat, 4).len() == 4,
        is_hex_text(hex_padded(u as nat, 4)),
        hex_unit(hex_padded(u as nat, 4), 0) == u,
{
    reveal_with_fuel(hex_padded, 5);
    let v = u as nat;
    a_digit_has_its_value((v % 16) as int);
    a_digit_has_its_value((v / 16 % 16) as int);
    a_digit_has_its_value((v / 16 / 16 % 16) as int);
    a_digit_has_its_value((v / 16 / 16 / 16 % 16) as int);
    let s = hex_padded(v, 4);
    assert(s[3] == hex_char((v % 16) as int));
    assert(s[2] == hex_char((v / 16 % 16) as int));
    assert(s[1] == hex_char((v / 16 / 16 % 16) as int));
    assert(s[0] == hex_char((v / 16 / 16 / 16 % 16) as int));
}

proof fn groups_have_their_values(units: Seq<u16>)
    ensures
        hex_of_units(units).len() == 4 * units.len(),
        is_hex_text(hex_of_units(units)),
        hex_units(hex_of_units(units)) == units,
    decreases units.len(),
{
    let text = hex_of_units(units);
    if units.len() > 0 {
        let head = hex_of_units(units.drop_last());
        let group = hex_padded(units.last() as nat, 4);
        groups_have_their_values(units.drop_last());
        a_group_has_its_value(units.last());
        assert forall|i: int| 0 <= i < text.len() implies hex_value(#[trigger] text[i]) is Some by {
            if i < head.len() {
                assert(hex_value(head[i]) is Some);
            } else {
                assert(hex_value(group[i - head.len()]) is Some);
            }
        }
        assert forall|k: int| 0 <= k < units.len() implies hex_unit(text, 4 * k) as u16 == units[k] by {
            if k < units.len() - 1 {
                assert(hex_unit(head, 4 * k) == hex_unit(text, 4 * k));
                assert(hex_units(head)[k] == units.drop_last()[k]);
            } else {
                assert(hex_unit(group, 0) == hex_unit(text, 4 * k));
            }
        }
    }
    assert(hex_units(text) =~= units);
}

proof fn no_zero_unit(path: Seq<char>)
    requires
        !path.contains('\0'),
    ensures
        !utf16_of(path).contains(0u16),
        path.len() > 0 ==> utf16_of(path).len() > 0,
    decreases path.len(),
{
    if path.len() > 0 {
        let c = path.last();
        assert(path[path.len() - 1] == c);
        assert forall|i: int| 0 <= i < path.drop_last().len() implies path.drop_last()[i] != '\0' by {
            assert(path.contains(path[i]));
        }
        no_zero_unit(path.drop_last());
        char_u32_cast(c, c as u32);
        let rest = utf16_of(path.drop_last());
        let last = units_of(c);
        assert forall|k: int| 0 <= k < utf16_of(path).len() implies utf16_of(path)[k] != 0u16 by {
            if k < rest.len() {
                assert(rest.contains(rest[k]));
            } else {
                assert(last[k - rest.len()] != 0u16);
            }
        }
    }
}

/// A restore command gives back the path that it was made for.
pub proof fn a_restore_command_carries_its_path(path: Seq<char>)
    requires
        path.len() > 0,
        !path.contains('\0'),
    ensures
        restore_text(restore_command(path)) == Some(path),
{
    let units = utf16_of(path);
    let n = restore_prefix().len() as int;
    no_zero_unit(path);
    groups_have_their_values(units);
    assert(restore_command(path).take(n) =~= restore_prefix());
    assert(restore_command(path).skip(n) =~= hex_of_units(units));
    decoding_undoes_encoding(path);
}

/// The registry's form of a GUID: capital hexadecimal digits in groups, between braces.
pub open spec fn guid_text(g: Guid) -> Seq<char> {
    seq!['{'] + hex_padded(g.data1 as nat, 8) + seq!['-'] + hex_padded(g.data2 as nat, 4) + seq!['-']
        + hex_padded(g.data3 as nat, 4) + seq!['-'] + hex_padded(g.data4[0] as nat, 2)
        + hex_padded(g.data4[1] as nat, 2) + seq!['-'] + hex_padded(g.data4[2] as nat, 2)
        + hex_padded(g.data4[3] as nat, 2) + hex_padded(g.data4[4] as nat, 2) + hex_padded(
        g.data4[5] as nat,
        2,
    ) + hex_padded(g.data4[6] as nat, 2) + hex_padded(g.data4[7] as nat, 2) + seq!['}']
}

/// The registry's form of a GUID.
pub fn guid_braced(g: &Guid) -> (r: String)
    ensures
        r@ == guid_text(*g),
{
    let mut out = String::new();
    out.push('{');
    push_hex(&mut out, g.data1, 8);
    out.push('-');
    push_hex(&mut out, g.data2 as u32, 4);
    out.push('-');
    push_hex(&mut out, g.data3 as u32, 4);
    out.push('-');
    push_hex(&mut out, g.data4[0] as u32, 2);
    push_hex(&mut out, g.data4[1] as u32, 2);
    out.push('-');
    push_hex(&mut out, g.data4[2] as u32, 2);
    push_hex(&mut out, g.data4[3] as u32, 2);
    push_hex(&mut out, g.data4[4] as u32, 2);
    push_hex(&mut out, g.data4[5] as u32, 2);
    push_hex(&mut out, g.data4[6] as u32, 2);
    push_hex(&mut out, g.data4[7] as u32, 2);
    out.push('}');
    out
}

/// The categories that the text service is registered under.
#[derive(Clone, Copy, Debug, PartialEq, Eq, Structural)]
pub enum Category {
    Keyboard,
    ImmersiveSupport,
    UiElementEnabled,
    DisplayAttributeProvider,
    Comless,
    SystraySupport,
    InputModeCompartment,
}

/// All categories, in the order of registration.
pub open spec fn categories() -> Seq<Category> {
    seq![
        Category::Keyboard,
        Category::ImmersiveSupport,
        Category::UiElementEnabled,
        Category::DisplayAttributeProvider,
        Category::Comless,
        Category::SystraySupport,
        Category::InputModeCompartment,
    ]
}

/// All categories, in the order of registration; unregistration uses the same list.
pub fn registration_categories() -> (r: [Category; 7])
    ensures
        r@ == categories(),
{
    [
        Category::Keyboard,
        Category::ImmersiveSupport,
        Category::UiElementEnabled,
        Category::DisplayAttributeProvider,
        Category::Comless,
        Category::SystraySupport,
        Category::InputModeCompartment,
    ]
}

/// How far a registration has come.
#[derive(Clone, Copy, Debug, PartialEq, Eq, Structural)]
pub enum RegistrationStep {
    /// The profile is registered next.
    Profile,
    /// The category at the index is registered next.
    Category { index: usize },
    /// The target becomes the active COM server next.
    Commit,
    Done,
    Failed,
}

impl RegistrationStep {
    /// The step after this one succeeded or failed.
    pub open spec fn after(self, ok: bool) -> RegistrationStep {
        match self {
            RegistrationStep::Done => RegistrationStep::Done,
            RegistrationStep::Failed => RegistrationStep::Failed,
            _ => if !ok {
                RegistrationStep::Failed
            } else {
                match self {
                    RegistrationStep::Profile => RegistrationStep::Category { index: 0 },
                    RegistrationStep::Category { index } => if index < 6 {
                        RegistrationStep::Category { index: (index + 1) as usize }
                    } else {
                        RegistrationStep::Commit
                    },
                    _ => RegistrationStep::Done,
                }
            },
        }
    }

    /// The step after this one succeeded or failed.
    pub fn next(self, ok: bool) -> (r: RegistrationStep)
        ensures
            r == self.after(ok),
    {
        match self {
            RegistrationStep::Done => RegistrationStep::Done,
            RegistrationStep::Failed => RegistrationStep::Failed,
            _ => if !ok {
                RegistrationStep::Failed
            } else {
                match self {
                    RegistrationStep::Profile => RegistrationStep::Category { index: 0 },
                    RegistrationStep::Category { index } => if index < 6 {
                        RegistrationStep::Category { index: index + 1 }
                    } else {
                        RegistrationStep::Commit
                    },
                    _ => RegistrationStep::Done,
                }
            },
        }
    }

    /// How many steps are left before the end.
    pub open spec fn left(self) -> int {
        match self {
            RegistrationStep::Profile => 9,
            RegistrationStep::Category { index } => if index < 7 {
                8 - index
            } else {
                2
            },
            RegistrationStep::Commit => 1,
            _ => 0,
        }
    }
}

/// The target becomes the active COM server last: only after the profile and every category were
/// registered, each right after the one before it. A failure ends the registration for good.
pub proof fn the_server_is_committed_last(step: RegistrationStep, ok: bool)
    requires
        step matches RegistrationStep::Category { index } ==> index < categories().len(),
    ensures
        step.after(ok) == RegistrationStep::Commit <==> ok && step == (RegistrationStep::Category {
            index: (categories().len() - 1) as usize,
        }),
        step.after(ok) matches RegistrationStep::Category { index } ==> ok && index
            < categories().len() && step == (if index == 0 {
            RegistrationStep::Profile
        } else {
            RegistrationStep::Category { index: (index - 1) as usize }
        }),
        step.after(ok) == RegistrationStep::Done <==> step == RegistrationStep::Done || (ok && step
            == RegistrationStep::Commit),
        RegistrationStep::Failed.after(ok) == RegistrationStep::Failed,
        step.left() > 0 ==> step.after(ok).left() < step.left(),
{
}

/// Registers the profile, then every category, and only then makes the target the active COM
/// server. The first failure ends the transaction and is its result.
pub fn registration_transaction_with<E>(
    target: &str,
    register_profile: impl Fn(&str) -> Result<(), E>,
    register_category: impl Fn(&Category) -> Result<(), E>,
    commit_inproc: impl Fn(&str) -> Result<(), E>,
) -> (r: Result<(), E>)
    requires
        register_profile.requires((target,)),
        register_profile.ensures((target,), Ok(())) ==> forall|c: &Category| #[trigger]
            register_category.requires((c,)),
        register_profile.ensures((target,), Ok(())) && (forall|k: int|
            0 <= k < 7 ==> register_category.ensures((&(#[trigger] categories()[k]),), Ok(())))
            ==> commit_inproc.requires((target,)),
    ensures
        r is Ok ==> register_profile.ensures((target,), Ok(())),
        r is Ok ==> forall|k: int|
            0 <= k < 7 ==> register_category.ensures((&(#[trigger] categories()[k]),), Ok(())),
        r is Ok ==> commit_inproc.ensures((target,), Ok(())),
        r is Err ==> {
            ||| register_profile.ensures((target,), r)
            ||| register_profile.ensures((target,), Ok(())) && exists|k: int|
                0 <= k < 7 && register_category.ensures((&(#[trigger] categories()[k]),), r)
                    && forall|j: int|
                    0 <= j < k ==> register_category.ensures(
                        (&(#[trigger] categories()[j]),),
                        Ok(()),
                    )
            ||| register_profile.ensures((target,), Ok(())) && (forall|k: int|
                0 <= k < 7 ==> register_category.ensures((&(#[trigger] categories()[k]),), Ok(())))
                && commit_inproc.ensures((target,), r)
        },
{
    let all = registration_categories();
    let mut step = RegistrationStep::Profile;
    while step != RegistrationStep::Done
        invariant
            all@ == categories(),
            register_profile.requires((target,)),
            register_profile.ensures((target,), Ok(())) ==> forall|c: &Category| #[trigger]
                register_category.requires((c,)),
            register_profile.ensures((target,), Ok(())) && (forall|k: int|
                0 <= k < 7 ==> register_category.ensures((&(#[trigger] categories()[k]),), Ok(())))
                ==> commit_inproc.requires((target,)),
            step != RegistrationStep::Failed,
            step != RegistrationStep::Profile ==> register_profile.ensures((target,), Ok(())),
            step matches RegistrationStep::Category { index } ==> index < 7 && forall|j: int|
                0 <= j < index ==> register_category.ensures(
                    (&(#[trigger] categories()[j]),),
                    Ok(()),
                ),
            step == RegistrationStep::Commit || step == RegistrationStep::Done ==> forall|j: int|
                0 <= j < 7 ==> register_category.ensures((&(#[trigger] categories()[j]),), Ok(())),
            step == RegistrationStep::Done ==> commit_inproc.ensures((target,), Ok(())),
        decreases step.left(),
    {
        let result = match step {
            RegistrationStep::Profile => register_profile(target),
            RegistrationStep::Category { index } => {
                assert(all@[index as int] == categories()[index as int]);
                register_category(&all[index])
            },
            _ => commit_inproc(target),
        };
        if result.is_err() {
            return result;
        }
        assert(result->Ok_0 == ());
        step = step.next(true);
    }
    Ok(())
}

/// An attempt to open a key failed because there is no such key.
pub fn registry_not_found(code: u32) -> (r: bool)
    ensures
        r == (code == FILE_NOT_FOUND || code == PATH_NOT_FOUND),
{
    code == FILE_NOT_FOUND || code == PATH_NOT_FOUND
}

/// The attempt to open a key shows that the key is absent. A key that could not be looked at
/// counts as present.
pub open spec fn absent(opened: Result<(), u32>) -> bool {
    opened matches Err(code) && (code == FILE_NOT_FOUND || code == PATH_NOT_FOUND)
}

/// Whether the attempt to open a tree shows that the tree is absent.
pub fn registry_tree_absent(opened: Result<(), u32>) -> (r: bool)
    ensures
        r == absent(opened),
{
    match opened {
        Ok(()) => false,
        Err(code) => registry_not_found(code),
    }
}

/// A root of the registry.
#[derive(Clone, Copy, Debug, PartialEq, Eq, Structural)]
pub enum Hive {
    LocalMachine,
    CurrentUser,
}

/// A tree of the registry that the text service owns.
#[derive(Clone, Debug, PartialEq, Eq)]
pub struct OwnedTree {
    pub hive: Hive,
    pub path: String,
}

/// The trees that registration leaves behind: the machine's COM server, a user's overlay of it,
/// and the text service's own trees in both views of the registry.
pub fn owned_trees(clsid: &str) -> (r: [OwnedTree; 4])
    ensures
        r@[0].hive is LocalMachine && r@[0].path@ == "SOFTWARE\\Classes\\CLSID\\"@ + clsid@,
        r@[1].hive is CurrentUser && r@[1].path@ == "Software\\Classes\\CLSID\\"@ + clsid@,
        r@[2].hive is LocalMachine && r@[2].path@ == "SOFTWARE\\Microsoft\\CTF\\TIP\\"@ + clsid@,
        r@[3].hive is LocalMachine && r@[3].path@
            == "SOFTWARE\\WOW6432Node\\Microsoft\\CTF\\TIP\\"@ + clsid@,
{
    [
        OwnedTree {
            hive: Hive::LocalMachine,
            path: joined("SOFTWARE\\Classes\\CLSID\\", clsid),
        },
        OwnedTree { hive: Hive::CurrentUser, path: joined("Software\\Classes\\CLSID\\", clsid) },
        OwnedTree {
            hive: Hive::LocalMachine,
            path: joined("SOFTWARE\\Microsoft\\CTF\\TIP\\", clsid),
        },
        OwnedTree {
            hive: Hive::LocalMachine,
            path: joined("SOFTWARE\\WOW6432Node\\Microsoft\\CTF\\TIP\\", clsid),
        },
    ]
}

/// The key whose default value is the active COM server.
pub fn inproc_server_key(clsid: &str) -> (r: String)
    ensures
        r@ == "SOFTWARE\\Classes\\CLSID\\"@ + clsid@ + "\\InprocServer32"@,
{
    joined(joined("SOFTWARE\\Classes\\CLSID\\", clsid).as_str(), "\\InprocServer32")
}

/// Registers the target for the whole machine. A user's own entry for the class would take
/// precedence, so its presence is refused before anything is changed.
pub fn register_for_target(
    target: &str,
    user_class: Result<(), u32>,
    register_profile: impl Fn(&str) -> Result<(), u32>,
    register_category: impl Fn(&Category) -> Result<(), u32>,
    commit_inproc: impl Fn(&str) -> Result<(), u32>,
) -> (r: Result<(), u32>)
    requires
        absent(user_class) ==> register_profile.requires((target,)),
        absent(user_class) && register_profile.ensures((target,), Ok(())) ==> forall|
            c: &Category,
        | #[trigger] register_category.requires((c,)),
        absent(user_class) && register_profile.ensures((target,), Ok(())) && (forall|k: int|
            0 <= k < 7 ==> register_category.ensures((&(#[trigger] categories()[k]),), Ok(())))
            ==> commit_inproc.requires((target,)),
    ensures
        !absent(user_class) ==> r == Err::<(), u32>(E_FAIL),
        r is Ok ==> absent(user_class) && register_profile.ensures((target,), Ok(()))
            && commit_inproc.ensures((target,), Ok(())),
        r is Ok ==> forall|k: int|
            0 <= k < 7 ==> register_category.ensures((&(#[trigger] categories()[k]),), Ok(())),
        r is Err && absent(user_class) ==> {
            ||| register_profile.ensures((target,), r)
            ||| register_profile.ensures((target,), Ok(())) && exists|k: int|
                0 <= k < 7 && register_category.ensures((&(#[trigger] categories()[k]),), r)
                    && forall|j: int|
                    0 <= j < k ==> register_category.ensures(
                        (&(#[trigger] categories()[j]),),
                        Ok(()),
                    )
            ||| register_profile.ensures((target,), Ok(())) && (forall|k: int|
                0 <= k < 7 ==> register_category.ensures((&(#[trigger] categories()[k]),), Ok(())))
                && commit_inproc.ensures((target,), r)
        },
{
    if !registry_tree_absent(user_class) {
        return Err(E_FAIL);
    }
    registration_transaction_with(target, register_profile, register_category, commit_inproc)
}

/// The target of a registration of this module. A path that could not be read whole would
/// register a server that cannot be loaded.
pub fn register(dll_path: Option<String>) -> (r: Result<String, u32>)
    ensures
        r == (match dll_path {
            Some(path) => Ok::<String, u32>(path),
            None => Err(E_FAIL),
        }),
{
    match dll_path {
        Some(path) => Ok(path),
        None => Err(E_FAIL),
    }
}

/// Unregistration succeeded if and only if every owned tree is seen to be gone, whatever the
/// single removals reported.
pub fn unregister(
    class: Result<(), u32>,
    user_class: Result<(), u32>,
    tip: Result<(), u32>,
    wow_tip: Result<(), u32>,
) -> (r: Result<(), u32>)
    ensures
        r == (if absent(class) && absent(user_class) && absent(tip) && absent(wow_tip) {
            Ok::<(), u32>(())
        } else {
            Err(E_FAIL)
        }),
{
    if registry_tree_absent(class) && registry_tree_absent(user_class) && registry_tree_absent(tip)
        && registry_tree_absent(wow_tip) {
        Ok(())
    } else {
        Err(E_FAIL)
    }
}

/// The target that a restore command names, if it belongs to the installation that the
/// installer left a marker of.
pub fn validated_restore_target(
    command: &str,
    prior_install_root: impl FnOnce() -> Result<String, u32>,
    file_exists: impl Fn(&str) -> bool,
) -> (r: Result<String, u32>)
    requires
        restore_text(command@) is Some ==> prior_install_root.requires(()),
        forall|path: &str, root: String|
            restore_text(command@) == Some(path@) && #[trigger] prior_install_root.ensures(
                (),
                Ok(root),
            ) && is_product_target(path@, root@) ==> #[trigger] file_exists.requires((path,)),
    ensures
        restore_text(command@) is None ==> r == Err::<String, u32>(E_INVALIDARG),
        restore_text(command@) is Some ==> {
            ||| exists|e: u32| #[trigger] prior_install_root.ensures((), Err(e)) && r == Err::<
                String,
                u32,
            >(e)
            ||| exists|root: String| #[trigger]
                prior_install_root.ensures((), Ok(root)) && match r {
                    Ok(target) => target@ == restore_text(command@)->0 && is_product_target(
                        target@,
                        root@,
                    ) && exists|path: &str|
                        path@ == target@ && #[trigger] file_exists.ensures((path,), true),
                    Err(e) => e == E_INVALIDARG && (is_product_target(
                        restore_text(command@)->0,
                        root@,
                    ) ==> exists|path: &str|
                        path@ == restore_text(command@)->0 && #[trigger] file_exists.ensures(
                            (path,),
                            false,
                        )),
                }
        },
{
    let target = match decode_restore_command(command) {
        None => return Err(E_INVALIDARG),
        Some(target) => target,
    };
    let root = match prior_install_root() {
        Err(e) => return Err(e),
        Ok(root) => root,
    };
    let path = target.as_str();
    match restore_target_for_root_with(path, root.as_str(), file_exists) {
        None => {
            assert(is_product_target(path@, root@) ==> file_exists.ensures((path,), false));
            Err(E_INVALIDARG)
        },
        Some(restored) => {
            assert(file_exists.ensures((path,), true));
            Ok(restored)
        },
    }
}

/// A hexadecimal digit has its value, in either case, and nothing else has one.
pub proof fn hexadecimal_digits_are_the_only_ones(c: char)
    ensures
        48 <= c as u32 <= 57 ==> hex_value(c) == Some(c as u32 - 48),
        97 <= c as u32 <= 102 ==> hex_value(c) == Some(c as u32 - 87),
        65 <= c as u32 <= 70 ==> hex_value(c) == Some(c as u32 - 55),
        hex_value(c) is Some ==> (48 <= c as u32 <= 57) || (97 <= c as u32 <= 102) || (65 <= c as u32
            <= 70),
{
}

/// The capital digit of a value is read as that value.
pub proof fn a_digit_is_read_back(v: int)
    requires
        0 <= v < 16,
    ensures
        hex_value(hex_char(v)) == Some(v),
        v < 10 ==> hex_char(v) as u32 == 48 + v,
        v >= 10 ==> hex_char(v) as u32 == 55 + v,
{
    a_digit_has_its_value(v);
    if v < 10 {
        char_u32_cast(hex_char(v), (48 + v) as u32);
    } else {
        char_u32_cast(hex_char(v), (55 + v) as u32);
    }
}

/// A text in a fixed number of digits has that many, and its digits are those of the value, the
/// lowest last.
pub proof fn padded_digits_are_those_of_the_value(value: nat, width: nat)
    ensures
        hex_padded(value, width).len() == width,
        width > 0 ==> hex_padded(value, width).last() == hex_char((value % 16) as int),
        width > 0 ==> hex_padded(value, width).drop_last() == hex_padded(
            value / 16,
            (width - 1) as nat,
        ),
    decreases width,
{
    if width > 0 {
        padded_digits_are_those_of_the_value(value / 16, (width - 1) as nat);
        assert(hex_padded(value, width).drop_last() =~= hex_padded(value / 16, (width - 1) as nat));
    }
}

/// Four digits write their number, the highest first, and a text of digits is read in groups.
pub proof fn groups_of_digits_are_numbers(s: Seq<char>, at: int, k: int)
    requires
        is_hex_text(s),
        0 <= k < s.len() / 4,
    ensures
        hex_unit(s, at) == ((hex_value(s[at])->0 * 16 + hex_value(s[at + 1])->0) * 16 + hex_value(
            s[at + 2],
        )->0) * 16 + hex_value(s[at + 3])->0,
        hex_units(s).len() == s.len() / 4,
        hex_units(s)[k] == hex_unit(s, 4 * k),
{
    assert(hex_value(s[4 * k]) is Some && hex_value(s[4 * k + 1]) is Some && hex_value(s[4 * k + 2])
        is Some && hex_value(s[4 * k + 3]) is Some);
    assert(0 <= hex_unit(s, 4 * k) <= 0xFFFF);
}

/// A restore command begins with its own word, and whole groups of digits follow, none of which is
/// zero. Anything else is refused.
pub proof fn a_restore_command_is_nothing_else(command: Seq<char>)
    ensures
        restore_prefix() == "restore-utf16hex="@,
        restore_text(command) is Some ==> {
            &&& command.len() > 17 && command.take(17) == "restore-utf16hex="@
            &&& (command.len() - 17) % 4 == 0
            &&& forall|i: int|
                17 <= i < command.len() ==> hex_value(#[trigger] command[i]) is Some
            &&& forall|k: int|
                0 <= k < (command.len() - 17) / 4 ==> #[trigger] hex_unit(command.skip(17), 4 * k)
                    != 0
            &&& restore_text(command) == utf16_text(hex_units(command.skip(17)))
        },
{
    reveal_strlit("restore-utf16hex=");
    if restore_text(command) is Some {
        let hex = command.skip(17);
        assert forall|i: int| 17 <= i < command.len() implies hex_value(#[trigger] command[i])
            is Some by {
            assert(hex_value(hex[i - 17]) is Some);
        }
        assert forall|k: int| 0 <= k < (command.len() - 17) / 4 implies #[trigger] hex_unit(
            command.skip(17),
            4 * k,
        ) != 0 by {
            groups_of_digits_are_numbers(hex, 4 * k, k);
            assert(hex_units(hex)[k] != 0u16);
        }
    }
}

/// Letters are the same as themselves in the other case, and no other characters are.
pub proof fn only_the_case_of_letters_is_ignored(a: char, b: char)
    ensures
        same_letter(a, a),
        same_letter(a, b) <==> same_letter(b, a),
        65 <= a as u32 <= 90 && b as u32 == a as u32 + 32 ==> same_letter(a, b),
        same_letter(a, b) && a != b ==> (65 <= a as u32 <= 90 && b as u32 == a as u32 + 32) || (97
            <= a as u32 <= 122 && a as u32 == b as u32 + 32),
        version_char(a) <==> (48 <= a as u32 <= 57) || (65 <= a as u32 <= 90) || (97 <= a as u32
            <= 122) || a as u32 == 46 || a as u32 == 45 || a as u32 == 43,
{
}

/// Texts are the same exactly if all their characters are, one by one.
pub proof fn texts_are_the_same_one_by_one(a: Seq<char>, b: Seq<char>, c: char, d: char)
    ensures
        same_ignoring_case(a, a),
        same_ignoring_case(a, b) ==> a.len() == b.len() && same_ignoring_case(b, a),
        same_ignoring_case(a.push(c), b.push(d)) <==> same_ignoring_case(a, b) && same_letter(c, d),
{
    if same_ignoring_case(a, b) {
        assert forall|i: int| 0 <= i < b.len() implies same_letter(#[trigger] b[i], a[i]) by {
            assert(same_letter(a[i], b[i]));
        }
    }
    if same_ignoring_case(a.push(c), b.push(d)) {
        assert(a.push(c).len() == b.push(d).len());
        assert forall|i: int| 0 <= i < a.len() implies same_letter(#[trigger] a[i], b[i]) by {
            assert(same_letter(a.push(c)[i], b.push(d)[i]));
        }
        assert(same_letter(a.push(c)[a.len() as int], b.push(d)[a.len() as int]));
    }
    if same_ignoring_case(a, b) && same_letter(c, d) {
        assert forall|i: int| 0 <= i < a.push(c).len() implies same_letter(
            #[trigger] a.push(c)[i],
            b.push(d)[i],
        ) by {
            if i < a.len() {
                assert(same_letter(a[i], b[i]));
            }
        }
    }
}

/// The part before the last separator is the parent: a name behind a directory has that directory.
pub proof fn a_file_lies_in_its_directory(directory: Seq<char>, name: Seq<char>)
    requires
        forall|i: int| 0 <= i < name.len() ==> #[trigger] name[i] != '\\',
    ensures
        parent_of(directory + seq!['\\'] + name) == Some(directory),
        parent_of(name) is None,
{
    let path = directory + seq!['\\'] + name;
    let at = directory.len() as int;
    assert forall|k: int| at < k < path.len() implies #[trigger] path[k] != '\\' by {
        assert(path[k] == name[k - at - 1]);
    }
    parent_is_at(path, at);
    assert(path.take(at) =~= directory);
    parent_is_none(name);
}

/// A root is an absolute path of a drive: no part of it is empty, or ends in a dot or a space, and
/// it is neither too short nor too long.
pub proof fn a_root_is_an_absolute_path(s: Seq<char>)
    requires
        is_install_root(s),
    ensures
        4 <= encode_utf8(s).len() <= 1024,
        s.len() > 3,
        (65 <= s[0] as u32 <= 90) || (97 <= s[0] as u32 <= 122),
        s[1] == ':' && s[2] == '\\',
        forall|i: int| 2 <= i < s.len() ==> #[trigger] s[i] != ':' && s[i] != '/',
        forall|i: int|
            3 <= i < s.len() && #[trigger] s[i] == '\\' ==> s[i - 1] != '\\' && s[i - 1] != '.' && s[i
                - 1] != ' ',
        s.last() != '\\' && s.last() != '.' && s.last() != ' ',
{
    assert(part_ends(s, s.len() as int));
    assert forall|i: int| 3 <= i < s.len() && #[trigger] s[i] == '\\' implies s[i - 1] != '\\' && s[i
        - 1] != '.' && s[i - 1] != ' ' by {
        assert(part_ends(s, i));
    }
}

/// A directory below a root is a root again, as long as its name is one and it is not too long.
pub proof fn a_directory_below_a_root_is_a_root(root: Seq<char>, name: Seq<char>)
    requires
        is_install_root(root),
        name.len() > 0,
        forall|i: int|
            0 <= i < name.len() ==> #[trigger] name[i] != '\\' && name[i] != '/' && name[i] != ':',
        name.last() != '.' && name.last() != ' ',
        encode_utf8(root + seq!['\\'] + name).len() <= 1024,
    ensures
        is_install_root(root + seq!['\\'] + name),
{
    let s = root + seq!['\\'] + name;
    let n = root.len() as int;
    a_root_is_an_absolute_path(root);
    bytes_cover_chars(s);
    assert forall|i: int| 0 <= i < s.len() implies #[trigger] s[i] != '/' by {
        if i < n {
            assert(s[i] == root[i]);
        } else if i > n {
            assert(s[i] == name[i - n - 1]);
        }
    }
    assert forall|i: int| 2 <= i < s.len() implies #[trigger] s[i] != ':' by {
        if i < n {
            assert(s[i] == root[i]);
        } else if i > n {
            assert(s[i] == name[i - n - 1]);
        }
    }
    assert forall|i: int| 3 <= i <= s.len() && #[trigger] part_ends(s, i) implies s[i - 1] != '\\'
        && s[i - 1] != '.' && s[i - 1] != ' ' by {
        if i <= n {
            assert(part_ends(root, i));
            assert(s[i - 1] == root[i - 1]);
        } else if i < s.len() {
            assert(s[i] == name[i - n - 1]);
        } else {
            assert(s[i - 1] == name[name.len() - 1]);
        }
    }
}

/// A directory right on a drive is a root.
pub proof fn a_directory_on_a_drive_is_a_root(drive: char, name: Seq<char>)
    requires
        (65 <= drive as u32 <= 90) || (97 <= drive as u32 <= 122),
        name.len() > 0,
        forall|i: int|
            0 <= i < name.len() ==> #[trigger] name[i] != '\\' && name[i] != '/' && name[i] != ':',
        name.last() != '.' && name.last() != ' ',
        encode_utf8(seq![drive, ':', '\\'] + name).len() <= 1024,
    ensures
        is_install_root(seq![drive, ':', '\\'] + name),
{
    let s = seq![drive, ':', '\\'] + name;
    bytes_cover_chars(s);
    assert(s[0] == drive && s[1] == ':' && s[2] == '\\');
    assert forall|i: int| 0 <= i < s.len() implies #[trigger] s[i] != '/' by {
        if i >= 3 {
            assert(s[i] == name[i - 3]);
        }
    }
    assert forall|i: int| 2 <= i < s.len() implies #[trigger] s[i] != ':' by {
        if i >= 3 {
            assert(s[i] == name[i - 3]);
        }
    }
    assert forall|i: int| 3 <= i <= s.len() && #[trigger] part_ends(s, i) implies s[i - 1] != '\\'
        && s[i - 1] != '.' && s[i - 1] != ' ' by {
        if i < s.len() {
            assert(s[i] == name[i - 3]);
        } else {
            assert(s[i - 1] == name[name.len() - 1]);
        }
    }
}

/// What an installation registers can be restored: the product's file right under its root, and the
/// one in a directory of a version.
pub proof fn what_was_installed_can_be_restored(root: Seq<char>, version: Seq<char>)
    requires
        is_install_root(root),
        is_semver(version),
        version.len() > 0,
        forall|i: int| 0 <= i < version.len() ==> version_char(#[trigger] version[i]),
        version.last() != '.',
        encode_utf8(root + "\\versions"@).len() <= 1024,
        encode_utf8(root + "\\versions\\"@ + version).len() <= 1024,
    ensures
        is_product_target(root + "\\nospacekey_tip.dll"@, root),
        is_product_target(root + "\\versions\\"@ + version + "\\nospacekey_tip.dll"@, root),
{
    reveal_strlit("\\nospacekey_tip.dll");
    reveal_strlit("\\versions\\");
    reveal_strlit("\\versions");
    let file = "\\nospacekey_tip.dll"@;
    let name = file.skip(1);
    assert(file =~= seq!['\\'] + name);
    a_root_is_an_absolute_path(root);
    // Right under the root.
    let legacy = root + file;
    assert(legacy =~= root + seq!['\\'] + name);
    a_file_lies_in_its_directory(root, name);
    assert forall|i: int| 0 <= i < legacy.len() implies #[trigger] legacy[i] != '/' by {
        if i < root.len() {
            assert(legacy[i] == root[i]);
        } else {
            assert(legacy[i] == file[i - root.len()]);
        }
    }
    assert forall|i: int| 2 <= i < legacy.len() implies #[trigger] legacy[i] != ':' by {
        if i < root.len() {
            assert(legacy[i] == root[i]);
        } else {
            assert(legacy[i] == file[i - root.len()]);
        }
    }
    texts_are_the_same_one_by_one(legacy, legacy, 'a', 'a');
    assert(is_legacy_target(legacy, root));
    // In a directory of a version.
    let word = "\\versions"@.skip(1);
    assert("\\versions"@ =~= seq!['\\'] + word);
    assert(root + "\\versions"@ =~= root + seq!['\\'] + word);
    a_directory_below_a_root_is_a_root(root, word);
    let versions = root + "\\versions"@;
    let directory = root + "\\versions\\"@ + version;
    assert("\\versions\\"@ =~= "\\versions"@ + seq!['\\']);
    assert(directory =~= versions + seq!['\\'] + version);
    assert(forall|i: int|
        0 <= i < version.len() ==> #[trigger] version[i] != '\\' && version[i] != '/' && version[i]
            != ':') by {
        assert forall|i: int| 0 <= i < version.len() implies #[trigger] version[i] != '\\' && version[i]
            != '/' && version[i] != ':' by {
            assert(version_char(version[i]));
        }
    }
    assert(version_char(version[version.len() - 1]));
    a_directory_below_a_root_is_a_root(versions, version);
    a_root_is_an_absolute_path(directory);
    let target = directory + file;
    assert(target =~= directory + seq!['\\'] + name);
    a_file_lies_in_its_directory(directory, name);
    assert forall|i: int| 0 <= i < target.len() implies #[trigger] target[i] != '/' by {
        if i < directory.len() {
            assert(target[i] == directory[i]);
        } else {
            assert(target[i] == file[i - directory.len()]);
        }
    }
    assert forall|i: int| 2 <= i < target.len() implies #[trigger] target[i] != ':' by {
        if i < directory.len() {
            assert(target[i] == directory[i]);
        } else {
            assert(target[i] == file[i - directory.len()]);
        }
    }
    let prefix = root + "\\versions\\"@;
    let end = target.len() - file.len();
    assert(target.subrange(0, prefix.len() as int) =~= prefix);
    assert(target.subrange(end, target.len() as int) =~= file);
    assert(target.subrange(prefix.len() as int, end) =~= version);
    texts_are_the_same_one_by_one(prefix, prefix, 'a', 'a');
    texts_are_the_same_one_by_one(file, file, 'a', 'a');
    assert(is_versioned_target(target, root));
}

/// What is restored lies under the root and is the product's own file, in any case of its letters;
/// between a root and the file there is nothing, or one version.
pub proof fn only_the_products_file_is_restored(target: Seq<char>, root: Seq<char>)
    requires
        is_product_target(target, root),
    ensures
        forall|i: int| 2 <= i < target.len() ==> #[trigger] target[i] != ':' && target[i] != '/',
        is_install_root(root) && parent_of(target) is Some && is_install_root(parent_of(target)->0),
        same_ignoring_case(target, root + "\\nospacekey_tip.dll"@) || exists|version: Seq<char>|
            #[trigger] is_semver(version) && same_ignoring_case(
                target,
                root + "\\versions\\"@ + version + "\\nospacekey_tip.dll"@,
            ),
{
    if !is_legacy_target(target, root) {
        let file = "\\nospacekey_tip.dll"@;
        let prefix = root + "\\versions\\"@;
        let end = target.len() - file.len();
        let version = target.subrange(prefix.len() as int, end);
        let full = prefix + version + file;
        assert(is_semver(version));
        assert forall|i: int| 0 <= i < target.len() implies same_letter(
            #[trigger] target[i],
            full[i],
        ) by {
            if i < prefix.len() {
                assert(same_letter(target.subrange(0, prefix.len() as int)[i], prefix[i]));
            } else if i >= end {
                assert(same_letter(
                    target.subrange(end, target.len() as int)[i - end],
                    file[i - end],
                ));
            }
        }
        assert(same_ignoring_case(target, full));
    }
}

/// The trees that an attempt to open shows to be absent, and no others.
pub proof fn an_absent_key_is_told_by_two_codes(code: u32)
    ensures
        absent(Err(code)) <==> code == 0x8007_0002 || code == 0x8007_0003,
        !absent(Ok(())),
{
}

/// The service is registered under seven categories, each once.
pub proof fn seven_categories_are_registered(c: Category)
    ensures
        categories().len() == 7,
        categories().contains(c),
        forall|i: int, j: int| 0 <= i < j < 7 ==> categories()[i] != categories()[j],
        categories()[0] == Category::Keyboard && categories()[1] == Category::ImmersiveSupport
            && categories()[2] == Category::UiElementEnabled && categories()[3]
            == Category::DisplayAttributeProvider && categories()[4] == Category::Comless
            && categories()[5] == Category::SystraySupport && categories()[6]
            == Category::InputModeCompartment,
        RegistrationStep::Profile.after(true) == (RegistrationStep::Category { index: 0 }),
        (RegistrationStep::Category { index: 6 }).after(true) == RegistrationStep::Commit,
        RegistrationStep::Commit.after(true) == RegistrationStep::Done,
        RegistrationStep::Profile.after(false) == RegistrationStep::Failed,
        RegistrationStep::Commit.after(false) == RegistrationStep::Failed,
        RegistrationStep::Profile.left() == 9 && RegistrationStep::Commit.left() == 1
            && RegistrationStep::Done.left() == 0,
{
    let all = categories();
    assert(all[0] == Category::Keyboard && all[1] == Category::ImmersiveSupport && all[2]
        == Category::UiElementEnabled && all[3] == Category::DisplayAttributeProvider && all[4]
        == Category::Comless && all[5] == Category::SystraySupport && all[6]
        == Category::InputModeCompartment);
}

proof fn two_digits_write_a_byte(value: u8)
    ensures
        hex_padded(value as nat, 2) == seq![
            hex_char(value as int / 16),
            hex_char(value as int % 16),
        ],
{
    reveal_with_fuel(hex_padded, 3);
    assert(hex_padded(value as nat, 2) =~= seq![
        hex_char(value as int / 16),
        hex_char(value as int % 16),
    ]);
}

proof fn four_digits_write_a_number(value: nat)
    requires
        value <= 0xFFFF,
    ensures
        hex_padded(value, 4).len() == 4,
        hex_unit(hex_padded(value, 4), 0) == value,
{
    a_group_has_its_value(value as u16);
}

proof fn a_digit_of_a_sum(sixteens: nat, rest: nat)
    ensures
        (16 * sixteens + rest) / 16 == sixteens + rest / 16,
        (16 * sixteens + rest) % 16 == rest % 16,
{
}

/// Eight digits are the four of the higher half and the four of the lower.
proof fn eight_digits_are_two_groups(value: nat)
    ensures
        hex_padded(value, 8) == hex_padded(value / 65536, 4) + hex_padded(value % 65536, 4),
{
    let low = value % 65536;
    let v1 = value / 16;
    let v2 = v1 / 16;
    let v3 = v2 / 16;
    let v4 = v3 / 16;
    let l1 = low / 16;
    let l2 = l1 / 16;
    let l3 = l2 / 16;
    let high = value / 65536;
    a_digit_of_a_sum(4096 * high, low);
    a_digit_of_a_sum(256 * high, l1);
    a_digit_of_a_sum(16 * high, l2);
    a_digit_of_a_sum(high, l3);
    assert(v1 == 4096 * high + l1 && v2 == 256 * high + l2 && v3 == 16 * high + l3 && v4 == high);
    let d0 = hex_char((value % 16) as int);
    let d1 = hex_char((v1 % 16) as int);
    let d2 = hex_char((v2 % 16) as int);
    let d3 = hex_char((v3 % 16) as int);
    assert(hex_padded(value, 8) == hex_padded(v1, 7).push(d0));
    assert(hex_padded(v1, 7) == hex_padded(v2, 6).push(d1));
    assert(hex_padded(v2, 6) == hex_padded(v3, 5).push(d2));
    assert(hex_padded(v3, 5) == hex_padded(v4, 4).push(d3));
    assert(hex_padded(low, 4) == hex_padded(l1, 3).push(d0));
    assert(hex_padded(l1, 3) == hex_padded(l2, 2).push(d1));
    assert(hex_padded(l2, 2) == hex_padded(l3, 1).push(d2));
    assert(hex_padded(l3, 1) == hex_padded(l3 / 16, 0).push(d3));
    assert(hex_padded(l3 / 16, 0) == Seq::<char>::empty());
    assert(hex_padded(value, 8) =~= hex_padded(v4, 4) + seq![d3, d2, d1, d0]);
    assert(hex_padded(low, 4) =~= seq![d3, d2, d1, d0]);
}

/// A name in the registry's form is read back as it is: braces around it, hyphens between its
/// groups, and every number of it in its place.
pub proof fn a_written_name_is_read_back(g: Guid)
    ensures
        ({
            let t = guid_text(g);
            &&& t.len() == 38
            &&& t[0] == '{' && t[37] == '}'
            &&& t[9] == '-' && t[14] == '-' && t[19] == '-' && t[24] == '-'
            &&& hex_unit(t, 1) * 65536 + hex_unit(t, 5) == g.data1
            &&& hex_unit(t, 10) == g.data2
            &&& hex_unit(t, 15) == g.data3
            &&& hex_unit(t, 20) == g.data4[0] * 256 + g.data4[1]
            &&& hex_unit(t, 25) == g.data4[2] * 256 + g.data4[3]
            &&& hex_unit(t, 29) == g.data4[4] * 256 + g.data4[5]
            &&& hex_unit(t, 33) == g.data4[6] * 256 + g.data4[7]
        }),
{
    let t = guid_text(g);
    let high = g.data1 as nat / 65536;
    let low = g.data1 as nat % 65536;
    eight_digits_are_two_groups(g.data1 as nat);
    four_digits_write_a_number(high);
    four_digits_write_a_number(low);
    four_digits_write_a_number(g.data2 as nat);
    four_digits_write_a_number(g.data3 as nat);
    let a = hex_padded(high, 4);
    let b = hex_padded(low, 4);
    let c = hex_padded(g.data2 as nat, 4);
    let d = hex_padded(g.data3 as nat, 4);
    assert forall|k: int| 0 <= k < 8 implies {
        &&& (#[trigger] hex_padded(g.data4[k] as nat, 2)).len() == 2
        &&& hex_value(hex_padded(g.data4[k] as nat, 2)[0])->0 * 16 + hex_value(
            hex_padded(g.data4[k] as nat, 2)[1],
        )->0 == g.data4[k]
    } by {
        two_digits_write_a_byte(g.data4[k]);
        a_digit_has_its_value(g.data4[k] as int / 16);
        a_digit_has_its_value(g.data4[k] as int % 16);
    }
    let h0 = hex_padded(g.data4[0] as nat, 2);
    let h1 = hex_padded(g.data4[1] as nat, 2);
    let h2 = hex_padded(g.data4[2] as nat, 2);
    let h3 = hex_padded(g.data4[3] as nat, 2);
    let h4 = hex_padded(g.data4[4] as nat, 2);
    let h5 = hex_padded(g.data4[5] as nat, 2);
    let h6 = hex_padded(g.data4[6] as nat, 2);
    let h7 = hex_padded(g.data4[7] as nat, 2);
    assert(t.subrange(1, 5) =~= a);
    assert(t.subrange(5, 9) =~= b);
    assert(t.subrange(10, 14) =~= c);
    assert(t.subrange(15, 19) =~= d);
    assert(t.subrange(20, 22) =~= h0);
    assert(t.subrange(22, 24) =~= h1);
    assert(t.subrange(25, 27) =~= h2);
    assert(t.subrange(27, 29) =~= h3);
    assert(t.subrange(29, 31) =~= h4);
    assert(t.subrange(31, 33) =~= h5);
    assert(t.subrange(33, 35) =~= h6);
    assert(t.subrange(35, 37) =~= h7);
    assert(a[0] == t[1] && a[1] == t[2] && a[2] == t[3] && a[3] == t[4]);
    assert(b[0] == t[5] && b[1] == t[6] && b[2] == t[7] && b[3] == t[8]);
    assert(c[0] == t[10] && c[1] == t[11] && c[2] == t[12] && c[3] == t[13]);
    assert(d[0] == t[15] && d[1] == t[16] && d[2] == t[17] && d[3] == t[18]);
    assert(h0[0] == t[20] && h0[1] == t[21] && h1[0] == t[22] && h1[1] == t[23]);
    assert(h2[0] == t[25] && h2[1] == t[26] && h3[0] == t[27] && h3[1] == t[28]);
    assert(h4[0] == t[29] && h4[1] == t[30] && h5[0] == t[31] && h5[1] == t[32]);
    assert(h6[0] == t[33] && h6[1] == t[34] && h7[0] == t[35] && h7[1] == t[36]);
}

/// The codes of the registry are those of the system.
pub proof fn the_codes_are_those_of_the_system()
    ensures
        E_FAIL == 0x8000_4005 && E_INVALIDARG == 0x8007_0057,
        FILE_NOT_FOUND == 0x8007_0000 + 2 && PATH_NOT_FOUND == 0x8007_0000 + 3,
        MAX_ROOT_BYTES == 1024,
{
}

} // verus!

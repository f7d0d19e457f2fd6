//! Where the daemon keeps its socket, data and cache, the file names of
//! cached covers, and the current time.

use vstd::prelude::*;
use vstd::string::*;

use std::path::PathBuf;
use std::time::SystemTime;

verus! {

broadcast use vstd::seq::Seq::lemma_flatten_push;

/// `std::path::PathBuf`, carried through as an opaque value.
#[verifier::external_type_specification]
#[verifier::external_body]
pub struct ExPathBuf(PathBuf);

/// `std::time::SystemTime`, carried through as an opaque value.
#[verifier::external_type_specification]
#[verifier::external_body]
pub struct ExSystemTime(SystemTime);

/// `dirs::state_dir`: the user's state directory, where the platform has
/// one. It depends on the environment; nothing is claimed of it.
#[verifier::external_body]
fn state_dir() -> Option<PathBuf> {
    dirs::state_dir()
}

/// `dirs::data_local_dir`: the user's local data directory. It depends on
/// the environment; nothing is claimed of it.
#[verifier::external_body]
fn data_local_dir() -> Option<PathBuf> {
    dirs::data_local_dir()
}

/// `dirs::cache_dir`: the user's cache directory. It depends on the
/// environment; nothing is claimed of it.
#[verifier::external_body]
fn cache_dir() -> Option<PathBuf> {
    dirs::cache_dir()
}

/// `dirs::home_dir`: the user's home directory. It depends on the
/// environment; nothing is claimed of it.
#[verifier::external_body]
fn home_dir() -> Option<PathBuf> {
    dirs::home_dir()
}

/// What `Path::join` gives for `base` and `part`. It depends on the two
/// alone; what path it is, is not spelled out here.
pub uninterp spec fn path_join(base: PathBuf, part: Seq<char>) -> PathBuf;

/// `Path::join`: `part` adjoined to `base`. The result is `path_join` of
/// the two.
#[verifier::external_body]
fn join(base: &PathBuf, part: &str) -> (r: PathBuf)
    ensures
        r == path_join(*base, part@),
{
    base.join(part)
}

/// `part` adjoined to the directory, where there is one.
pub open spec fn joined(dir: Option<PathBuf>, part: Seq<char>) -> Option<PathBuf> {
    match dir {
        Some(d) => Some(path_join(d, part)),
        None => None,
    }
}

/// The first of two candidate directories that exists.
pub open spec fn first_of(first: Option<PathBuf>, second: Option<PathBuf>) -> Option<PathBuf> {
    match first {
        Some(_) => first,
        None => second,
    }
}

/// The socket's path for the given state, local data and home directories.
pub open spec fn socket_path_of(
    state: Option<PathBuf>,
    local: Option<PathBuf>,
    home: Option<PathBuf>,
) -> Option<PathBuf> {
    joined(first_of(state, first_of(local, joined(home, ".local/share"@))), "accentord.socket"@)
}

/// The data directory for the given local data and home directories.
pub open spec fn data_path_of(local: Option<PathBuf>, home: Option<PathBuf>) -> Option<PathBuf> {
    joined(first_of(local, joined(home, ".local/share"@)), "accentor"@)
}

/// The cache directory for the given cache and home directories.
pub open spec fn cache_path_of(cache: Option<PathBuf>, home: Option<PathBuf>) -> Option<PathBuf> {
    joined(first_of(cache, joined(home, ".cache"@)), "accentor"@)
}

/// The first of two candidate directories that exists.
pub fn first_dir(first: Option<PathBuf>, second: Option<PathBuf>) -> (r: Option<PathBuf>)
    ensures
        r == first_of(first, second),
{
    match first {
        Some(d) => Some(d),
        None => second,
    }
}

/// `part` adjoined to the directory, where there is one.
fn join_opt(dir: Option<PathBuf>, part: &str) -> (r: Option<PathBuf>)
    ensures
        r == joined(dir, part@),
{
    match dir {
        Some(d) => Some(join(&d, part)),
        None => None,
    }
}

/// The socket's path, given what the platform reports as the state, local
/// data and home directories: `accentord.socket` in the state directory,
/// else in the local data directory, else in `.local/share` under the home
/// directory; `None` when there is none of them.
pub fn socket_path_from(
    state: Option<PathBuf>,
    local: Option<PathBuf>,
    home: Option<PathBuf>,
) -> (r: Option<PathBuf>)
    ensures
        r == socket_path_of(state, local, home),
{
    let dir = first_dir(state, first_dir(local, join_opt(home, ".local/share")));
    join_opt(dir, "accentord.socket")
}

/// The data directory, given what the platform reports as the local data
/// and home directories: `accentor` in the local data directory, else in
/// `.local/share` under the home directory; `None` when there is neither.
pub fn data_path_from(local: Option<PathBuf>, home: Option<PathBuf>) -> (r: Option<PathBuf>)
    ensures
        r == data_path_of(local, home),
{
    let dir = first_dir(local, join_opt(home, ".local/share"));
    join_opt(dir, "accentor")
}

/// The cache directory, given what the platform reports as the cache and
/// home directories: `accentor` in the cache directory, else in `.cache`
/// under the home directory; `None` when there is neither.
pub fn cache_path_from(cache: Option<PathBuf>, home: Option<PathBuf>) -> (r: Option<PathBuf>)
    ensures
        r == cache_path_of(cache, home),
{
    let dir = first_dir(cache, join_opt(home, ".cache"));
    join_opt(dir, "accentor")
}

/// The path of the daemon's socket, as `socket_path_from` gives it for the
/// directories that the platform reports.
pub fn get_socket_path() -> (r: Option<PathBuf>)
    ensures
        exists|s: Option<PathBuf>, l: Option<PathBuf>, h: Option<PathBuf>|
            r == #[trigger] socket_path_of(s, l, h),
{
    let state = state_dir();
    let local = data_local_dir();
    let home = home_dir();
    let ghost (s, l, h) = (state, local, home);
    let r = socket_path_from(state, local, home);
    assert(r == socket_path_of(s, l, h));
    r
}

/// The daemon's data directory, as `data_path_from` gives it for the
/// directories that the platform reports.
pub fn get_data_path() -> (r: Option<PathBuf>)
    ensures
        exists|l: Option<PathBuf>, h: Option<PathBuf>| r == #[trigger] data_path_of(l, h),
{
    let local = data_local_dir();
    let home = home_dir();
    let ghost (l, h) = (local, home);
    let r = data_path_from(local, home);
    assert(r == data_path_of(l, h));
    r
}

/// The daemon's cache directory, as `cache_path_from` gives it for the
/// directories that the platform reports.
pub fn get_cache_path() -> (r: Option<PathBuf>)
    ensures
        exists|c: Option<PathBuf>, h: Option<PathBuf>| r == #[trigger] cache_path_of(c, h),
{
    let cache = cache_dir();
    let home = home_dir();
    let ghost (c, h) = (cache, home);
    let r = cache_path_from(cache, home);
    assert(r == cache_path_of(c, h));
    r
}

/// Whether a byte stands for itself in a cache file name: an ASCII letter
/// or digit, `.`, `-` or `_`.
pub open spec fn is_plain_byte(b: u8) -> bool {
    (48 <= b <= 57) || (65 <= b <= 90) || (97 <= b <= 122) || b == 46 || b == 45 || b == 95
}

/// The upper-case hexadecimal digit of `d`.
pub open spec fn hex_digit(d: nat) -> char {
    if d < 10 {
        ((48 + d) as u8) as char
    } else {
        ((55 + d) as u8) as char
    }
}

/// How one byte of a URL appears in the file name: itself, or `%` and two
/// upper-case hexadecimal digits.
pub open spec fn escape_byte(b: u8) -> Seq<char> {
    if is_plain_byte(b) {
        seq![b as char]
    } else {
        seq!['%', hex_digit((b / 16) as nat), hex_digit((b % 16) as nat)]
    }
}

/// The file name of the bytes of a URL, byte after byte.
pub open spec fn escape_bytes(bytes: Seq<u8>) -> Seq<char> {
    bytes.map_values(|b: u8| escape_byte(b)).flatten()
}

/// The upper-case hexadecimal digit of `d`.
fn hex(d: u8) -> (c: char)
    requires
        d < 16,
    ensures
        c == hex_digit(d as nat),
{
    if d < 10 {
        (48u8 + d) as char
    } else {
        (55u8 + d) as char
    }
}

/// The name under which the cover at `url` is cached: the bytes of the URL,
/// with every byte other than an ASCII letter or digit, `.`, `-` and `_`
/// written as `%` and two upper-case hexadecimal digits.
pub fn url_to_filename(url: &str) -> (r: String)
    ensures
        r@ == escape_bytes(url.spec_bytes()),
{
    let bytes = url.as_bytes();
    let mut out = String::new();
    let n = bytes.len();
    let mut i: usize = 0;
    while i < n
        invariant
            i <= n == bytes@.len(),
            bytes@ == url.spec_bytes(),
            out@ == escape_bytes(bytes@.take(i as int)),
        decreases n - i,
    {
        let b = bytes[i];
        if (48 <= b && b <= 57) || (65 <= b && b <= 90) || (97 <= b && b <= 122) || b == 46 || b == 45 || b == 95 {
            out.push(b as char);
        } else {
            out.push('%');
            out.push(hex(b / 16));
            out.push(hex(b % 16));
        }
        assert(bytes@.take(i + 1).map_values(|x: u8| escape_byte(x))
            =~= bytes@.take(i as int).map_values(|x: u8| escape_byte(x)).push(escape_byte(b)));
        assert(out@ =~= escape_bytes(bytes@.take(i + 1)));
        i = i + 1;
    }
    assert(bytes@.take(n as int) =~= bytes@);
    out
}


/// The value of an upper-case hexadecimal digit.
pub open spec fn hex_value(c: char) -> int {
    if c <= '9' {
        c as int - 48
    } else {
        c as int - 55
    }
}

/// Reads the bytes back from a cache file name: `%` and two hexadecimal
/// digits give one byte, any other character the byte of its code.
pub open spec fn unescape(s: Seq<char>) -> Seq<u8>
    decreases s.len(),
{
    if s.len() == 0 {
        seq![]
    } else if s[0] == '%' && s.len() >= 3 {
        seq![(hex_value(s[1]) * 16 + hex_value(s[2])) as u8] + unescape(s.skip(3))
    } else {
        seq![s[0] as u8] + unescape(s.skip(1))
    }
}

/// Whether `c` may stand in a cache file name: an ASCII letter or digit,
/// `.`, `-`, `_` or `%`; in particular no path separator.
pub open spec fn is_file_name_char(c: char) -> bool {
    ('0' <= c <= '9') || ('A' <= c <= 'Z') || ('a' <= c <= 'z') || c == '.' || c == '-' || c == '_' || c == '%'
}

proof fn lemma_escape_bytes_step(bytes: Seq<u8>)
    requires
        bytes.len() > 0,
    ensures
        escape_bytes(bytes) == escape_byte(bytes[0]) + escape_bytes(bytes.drop_first()),
{
    let m = bytes.map_values(|b: u8| escape_byte(b));
    assert(m.drop_first() =~= bytes.drop_first().map_values(|b: u8| escape_byte(b)));
}

proof fn lemma_escape_byte_read_back(b: u8, rest: Seq<char>)
    ensures
        unescape(escape_byte(b) + rest) == seq![b] + unescape(rest),
        forall|i: int| 0 <= i < escape_byte(b).len() ==> is_file_name_char(#[trigger] escape_byte(b)[i]),
{
    let e = escape_byte(b);
    if is_plain_byte(b) {
        assert((e + rest)[0] == b as char);
        assert((e + rest).skip(1) =~= rest);
        assert(((b as char) as u8) == b);
    } else {
        let hi = (b / 16) as nat;
        let lo = (b % 16) as nat;
        assert((e + rest).skip(3) =~= rest);
        assert(hex_value(hex_digit(hi)) == hi);
        assert(hex_value(hex_digit(lo)) == lo);
        assert(hi * 16 + lo == b);
    }
}

/// The file name of a URL gives back the URL's bytes, so distinct URLs are
/// cached under distinct names; and it holds only letters, digits, `.`,
/// `-`, `_` and `%`, so it never names a path into another directory.
pub proof fn lemma_url_file_name(bytes: Seq<u8>)
    ensures
        unescape(escape_bytes(bytes)) == bytes,
        forall|i: int| 0 <= i < escape_bytes(bytes).len() ==> is_file_name_char(#[trigger] escape_bytes(bytes)[i]),
    decreases bytes.len(),
{
    if bytes.len() == 0 {
        assert(escape_bytes(bytes) =~= Seq::<char>::empty());
        assert(unescape(Seq::<char>::empty()) =~= bytes);
    } else {
        lemma_escape_bytes_step(bytes);
        lemma_url_file_name(bytes.drop_first());
        lemma_escape_byte_read_back(bytes[0], escape_bytes(bytes.drop_first()));
        assert(seq![bytes[0]] + bytes.drop_first() =~= bytes);
        let e = escape_byte(bytes[0]);
        let t = escape_bytes(bytes.drop_first());
        assert forall|i: int| 0 <= i < escape_bytes(bytes).len() implies is_file_name_char(#[trigger] escape_bytes(bytes)[i]) by {
            if i < e.len() {
                assert((e + t)[i] == e[i]);
            } else {
                assert((e + t)[i] == t[i - e.len()]);
            }
        }
    }
}

/// Two URLs are cached under the same name only when they are the same URL.
pub proof fn lemma_url_file_name_injective(a: &str, b: &str)
    ensures
        escape_bytes(a.spec_bytes()) == escape_bytes(b.spec_bytes()) ==> a.spec_bytes() == b.spec_bytes(),
{
    lemma_url_file_name(a.spec_bytes());
    lemma_url_file_name(b.spec_bytes());
}

/// `SystemTime::now`: the current time of the system clock. Nothing is
/// claimed of it.
#[verifier::external_body]
fn now() -> SystemTime {
    SystemTime::now()
}

/// What `SystemTime::duration_since(UNIX_EPOCH)` gives for `t`, in whole
/// milliseconds; `None` when `t` lies before the epoch. It depends on `t`
/// alone.
pub uninterp spec fn epoch_millis(t: SystemTime) -> Option<u128>;

/// `SystemTime::duration_since(UNIX_EPOCH)`, in whole milliseconds; `None`
/// when `t` lies before the epoch. The result is `epoch_millis` of `t`.
#[verifier::external_body]
fn millis_since_epoch(t: &SystemTime) -> (r: Option<u128>)
    ensures
        r == epoch_millis(*t),
{
    match t.duration_since(std::time::UNIX_EPOCH) {
        Ok(d) => Some(d.as_millis()),
        Err(_) => None,
    }
}

/// The milliseconds since the epoch as a signed 64-bit count, as it is
/// stored: truncated to 64 bits; 0 for a time before the epoch.
pub open spec fn unix_ms_value(millis: Option<u128>) -> i64 {
    match millis {
        Some(m) => m as i64,
        None => 0,
    }
}

/// The milliseconds since the epoch as a signed 64-bit count, as it is
/// stored: truncated to 64 bits; 0 for a time before the epoch.
pub fn unix_ms_of(millis: Option<u128>) -> (r: i64)
    ensures
        r == unix_ms_value(millis),
{
    match millis {
        Some(m) => m as i64,
        None => 0,
    }
}

/// The current time in milliseconds since the epoch; 0 when the clock is
/// before the epoch. Which time the clock reads is not stated.
pub fn unix_ms() -> (r: i64)
    ensures
        exists|t: SystemTime| r == #[trigger] unix_ms_value(epoch_millis(t)),
{
    let t = now();
    let m = millis_since_epoch(&t);
    let r = unix_ms_of(m);
    assert(r == unix_ms_value(epoch_millis(t)));
    r
}

} // verus!

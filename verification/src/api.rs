//! The records the Accentor server hands out, their names for enum values,
//! and the URLs of its endpoints.

use vstd::prelude::*;
use vstd::string::*;

use crate::text::{all_digits as text_all_digits, decimal, lemma_decimal_reads_back, numeral_value, push_decimal};

verus! {

/// An artist credited on an album.
#[derive(Clone, Debug, PartialEq)]
pub struct AlbumArtist {
    pub artist_id: i64,
    pub name: String,
    pub normalized_name: String,
    pub order: i64,
    pub separator: Option<String>,
}

/// A label an album was released on.
#[derive(Clone, Debug, PartialEq)]
pub struct AlbumLabel {
    pub label_id: i64,
    pub catalogue_number: Option<String>,
}

/// An album.
#[derive(Clone, Debug, PartialEq)]
pub struct Album {
    pub id: i64,
    pub title: String,
    pub normalized_title: String,
    pub release: String,
    pub review_comment: Option<String>,
    pub edition: Option<String>,
    pub edition_description: Option<String>,
    pub album_artists: Vec<AlbumArtist>,
    pub album_labels: Vec<AlbumLabel>,
    pub image: Option<String>,
    pub image100: Option<String>,
    pub image250: Option<String>,
    pub image500: Option<String>,
    pub image_type: Option<String>,
    pub created_at: String,
    pub updated_at: String,
}

/// An artist.
#[derive(Clone, Debug, PartialEq)]
pub struct Artist {
    pub id: i64,
    pub name: String,
    pub normalized_name: String,
    pub review_comment: Option<String>,
    pub image: Option<String>,
    pub image100: Option<String>,
    pub image250: Option<String>,
    pub image500: Option<String>,
    pub image_type: Option<String>,
    pub created_at: String,
    pub updated_at: String,
}

/// A freshly created auth token, with its secret.
#[derive(Clone, Debug, PartialEq)]
pub struct AuthTokenWithToken {
    pub id: u64,
    pub user_id: u64,
    pub user_agent: String,
    pub token: String,
}

/// An auth token as listed by the server (without its secret).
#[derive(Clone, Debug, PartialEq)]
pub struct AuthToken {
    pub id: i64,
    pub user_id: i64,
    pub user_agent: String,
    pub application: Option<String>,
}

/// A transcoding setting of the server.
#[derive(Clone, Debug, PartialEq)]
pub struct CodecConversion {
    pub id: i64,
    pub name: String,
    pub ffmpeg_params: String,
    pub resulting_codec_id: i64,
}

/// A genre.
#[derive(Clone, Debug, PartialEq)]
pub struct Genre {
    pub id: i64,
    pub name: String,
    pub normalized_name: String,
}

/// A record label.
#[derive(Clone, Debug, PartialEq)]
pub struct Label {
    pub id: i64,
    pub name: String,
    pub normalized_name: String,
}

/// One page of a paginated listing, with the number of pages in all.
pub struct Page<T> {
    pub items: Vec<T>,
    pub total_pages: u32,
}

/// What the items of a playlist are.
#[derive(Clone, Copy, Debug, PartialEq, Eq, Structural)]
pub enum PlaylistType {
    Album,
    Artist,
    Track,
}

/// Who may see a playlist.
#[derive(Clone, Copy, Debug, PartialEq, Eq, Structural)]
pub enum PlaylistAccess {
    Shared,
    Personal,
    Secret,
}

/// A playlist; `item_ids` are in playlist order.
#[derive(Clone, Debug, PartialEq)]
pub struct Playlist {
    pub id: i64,
    pub name: String,
    pub description: Option<String>,
    pub user_id: i64,
    pub access: PlaylistAccess,
    pub playlist_type: PlaylistType,
    pub item_ids: Vec<i64>,
    pub created_at: String,
    pub updated_at: String,
}

/// One play of a track by a user.
#[derive(Clone, Debug, PartialEq)]
pub struct Play {
    pub id: i64,
    pub played_at: String,
    pub track_id: i64,
    pub user_id: i64,
}

/// The part an artist had in a track.
#[derive(Clone, Copy, Debug, PartialEq, Eq, Structural)]
pub enum TrackArtistRole {
    Main,
    Performer,
    Composer,
    Conductor,
    Remixer,
    Producer,
    Arranger,
}

/// An artist credited on a track.
#[derive(Clone, Debug, PartialEq)]
pub struct TrackArtist {
    pub artist_id: i64,
    pub role: TrackArtistRole,
    pub order: i64,
    pub name: String,
    pub normalized_name: String,
    pub hidden: bool,
}

/// A track.
#[derive(Clone, Debug, PartialEq)]
pub struct Track {
    pub id: i64,
    pub title: String,
    pub normalized_title: String,
    pub number: i64,
    pub album_id: i64,
    pub review_comment: Option<String>,
    pub genre_ids: Vec<i64>,
    pub codec_id: Option<i64>,
    pub length: Option<i64>,
    pub bitrate: Option<i64>,
    pub location_id: Option<i64>,
    pub audio_file_id: Option<i64>,
    pub track_artists: Vec<TrackArtist>,
    pub filename: Option<String>,
    pub sample_rate: Option<i64>,
    pub bit_depth: Option<i64>,
    pub created_at: String,
    pub updated_at: String,
}

/// What a user may do on the server.
#[derive(Clone, Copy, Debug, PartialEq, Eq, Structural)]
pub enum Permission {
    User,
    Moderator,
    Admin,
}

/// A user of the server.
#[derive(Clone, Debug, PartialEq)]
pub struct User {
    pub id: u64,
    pub name: String,
    pub permission: Permission,
}

/// A text that names no value of the enum it was read as.
#[derive(Clone, Copy, Debug, PartialEq, Eq, Structural)]
pub struct UnknownVariant;

/// Whether two texts are the same.
pub fn same_text(a: &str, b: &str) -> (r: bool)
    ensures
        r == (a@ == b@),
{
    let n = a.unicode_len();
    if n != b.unicode_len() {
        return false;
    }
    let mut i: usize = 0;
    while i < n
        invariant
            n == a@.len(),
            n == b@.len(),
            i <= n,
            forall|j: int| 0 <= j < i ==> a@[j] == b@[j],
        decreases n - i,
    {
        if a.get_char(i) != b.get_char(i) {
            return false;
        }
        i = i + 1;
    }
    assert(a@ =~= b@);
    true
}

impl Permission {
    /// The lower-case name of the permission.
    pub open spec fn text(self) -> &'static str {
        match self {
            Permission::User => "user",
            Permission::Moderator => "moderator",
            Permission::Admin => "admin",
        }
    }

    /// The lower-case name of the value, as characters.
    pub open spec fn name(self) -> Seq<char> {
        self.text()@
    }

    /// The permission that a name stands for.
    pub open spec fn from_name(s: Seq<char>) -> Result<Permission, UnknownVariant> {
        if s == "user"@ {
            Ok(Permission::User)
        } else if s == "moderator"@ {
            Ok(Permission::Moderator)
        } else if s == "admin"@ {
            Ok(Permission::Admin)
        } else {
            Err(UnknownVariant)
        }
    }

    /// The lower-case name of the permission, as stored and sent.
    pub fn as_str(&self) -> (s: &'static str)
        ensures
            s == self.text(),
    {
        match self {
            Permission::User => "user",
            Permission::Moderator => "moderator",
            Permission::Admin => "admin",
        }
    }

    /// Reads a permission from its lower-case name.
    pub fn parse(s: &str) -> (r: Result<Permission, UnknownVariant>)
        ensures
            r == Self::from_name(s@),
    {
        if same_text(s, "user") {
            Ok(Permission::User)
        } else if same_text(s, "moderator") {
            Ok(Permission::Moderator)
        } else if same_text(s, "admin") {
            Ok(Permission::Admin)
        } else {
            Err(UnknownVariant)
        }
    }
}

impl PlaylistAccess {
    /// The lower-case name of the access level.
    pub open spec fn text(self) -> &'static str {
        match self {
            PlaylistAccess::Shared => "shared",
            PlaylistAccess::Personal => "personal",
            PlaylistAccess::Secret => "secret",
        }
    }

    /// The lower-case name of the value, as characters.
    pub open spec fn name(self) -> Seq<char> {
        self.text()@
    }

    /// The access level that a name stands for.
    pub open spec fn from_name(s: Seq<char>) -> Result<PlaylistAccess, UnknownVariant> {
        if s == "shared"@ {
            Ok(PlaylistAccess::Shared)
        } else if s == "personal"@ {
            Ok(PlaylistAccess::Personal)
        } else if s == "secret"@ {
            Ok(PlaylistAccess::Secret)
        } else {
            Err(UnknownVariant)
        }
    }

    /// The lower-case name of the access level, as stored and sent.
    pub fn as_str(&self) -> (s: &'static str)
        ensures
            s == self.text(),
    {
        match self {
            PlaylistAccess::Shared => "shared",
            PlaylistAccess::Personal => "personal",
            PlaylistAccess::Secret => "secret",
        }
    }

    /// Reads an access level from its lower-case name.
    pub fn parse(s: &str) -> (r: Result<PlaylistAccess, UnknownVariant>)
        ensures
            r == Self::from_name(s@),
    {
        if same_text(s, "shared") {
            Ok(PlaylistAccess::Shared)
        } else if same_text(s, "personal") {
            Ok(PlaylistAccess::Personal)
        } else if same_text(s, "secret") {
            Ok(PlaylistAccess::Secret)
        } else {
            Err(UnknownVariant)
        }
    }
}

impl PlaylistType {
    /// The lower-case name of the playlist type.
    pub open spec fn text(self) -> &'static str {
        match self {
            PlaylistType::Album => "album",
            PlaylistType::Artist => "artist",
            PlaylistType::Track => "track",
        }
    }

    /// The lower-case name of the value, as characters.
    pub open spec fn name(self) -> Seq<char> {
        self.text()@
    }

    /// The playlist type that a name stands for.
    pub open spec fn from_name(s: Seq<char>) -> Result<PlaylistType, UnknownVariant> {
        if s == "album"@ {
            Ok(PlaylistType::Album)
        } else if s == "artist"@ {
            Ok(PlaylistType::Artist)
        } else if s == "track"@ {
            Ok(PlaylistType::Track)
        } else {
            Err(UnknownVariant)
        }
    }

    /// The lower-case name of the playlist type, as stored and sent.
    pub fn as_str(&self) -> (s: &'static str)
        ensures
            s == self.text(),
    {
        match self {
            PlaylistType::Album => "album",
            PlaylistType::Artist => "artist",
            PlaylistType::Track => "track",
        }
    }

    /// Reads a playlist type from its lower-case name.
    pub fn parse(s: &str) -> (r: Result<PlaylistType, UnknownVariant>)
        ensures
            r == Self::from_name(s@),
    {
        if same_text(s, "album") {
            Ok(PlaylistType::Album)
        } else if same_text(s, "artist") {
            Ok(PlaylistType::Artist)
        } else if same_text(s, "track") {
            Ok(PlaylistType::Track)
        } else {
            Err(UnknownVariant)
        }
    }
}

impl TrackArtistRole {
    /// The lower-case name of the role.
    pub open spec fn text(self) -> &'static str {
        match self {
            TrackArtistRole::Main => "main",
            TrackArtistRole::Performer => "performer",
            TrackArtistRole::Composer => "composer",
            TrackArtistRole::Conductor => "conductor",
            TrackArtistRole::Remixer => "remixer",
            TrackArtistRole::Producer => "producer",
            TrackArtistRole::Arranger => "arranger",
        }
    }

    /// The lower-case name of the value, as characters.
    pub open spec fn name(self) -> Seq<char> {
        self.text()@
    }

    /// The lower-case name of the role, as stored and sent.
    pub fn as_str(&self) -> (s: &'static str)
        ensures
            s == self.text(),
    {
        match self {
            TrackArtistRole::Main => "main",
            TrackArtistRole::Performer => "performer",
            TrackArtistRole::Composer => "composer",
            TrackArtistRole::Conductor => "conductor",
            TrackArtistRole::Remixer => "remixer",
            TrackArtistRole::Producer => "producer",
            TrackArtistRole::Arranger => "arranger",
        }
    }
}

/// Reading a permission back from the name it is stored under gives the
/// permission, and no other name reads as it.
pub proof fn lemma_permission_name_roundtrip(p: Permission, s: Seq<char>)
    ensures
        Permission::from_name(p.name()) == Ok::<Permission, UnknownVariant>(p),
        Permission::from_name(s) == Ok::<Permission, UnknownVariant>(p) ==> s == p.name(),
{
    reveal_strlit("user");
    assert("user"@.len() == 4);
    reveal_strlit("moderator");
    assert("moderator"@.len() == 9);
    reveal_strlit("admin");
    assert("admin"@.len() == 5);
}

/// Reading an access level back from its name gives the access level, and
/// no other name reads as it.
pub proof fn lemma_playlist_access_name_roundtrip(a: PlaylistAccess, s: Seq<char>)
    ensures
        PlaylistAccess::from_name(a.name()) == Ok::<PlaylistAccess, UnknownVariant>(a),
        PlaylistAccess::from_name(s) == Ok::<PlaylistAccess, UnknownVariant>(a) ==> s == a.name(),
{
    reveal_strlit("shared");
    assert("shared"@.len() == 6);
    reveal_strlit("personal");
    assert("personal"@.len() == 8);
    reveal_strlit("secret");
    assert("secret"@.len() == 6);
    assert("shared"@ != "secret"@) by { assert("shared"@[1] != "secret"@[1]); }
}

/// Reading a playlist type back from its name gives the type, and no other
/// name reads as it.
pub proof fn lemma_playlist_type_name_roundtrip(t: PlaylistType, s: Seq<char>)
    ensures
        PlaylistType::from_name(t.name()) == Ok::<PlaylistType, UnknownVariant>(t),
        PlaylistType::from_name(s) == Ok::<PlaylistType, UnknownVariant>(t) ==> s == t.name(),
{
    reveal_strlit("album");
    assert("album"@.len() == 5);
    reveal_strlit("artist");
    assert("artist"@.len() == 6);
    reveal_strlit("track");
    assert("track"@.len() == 5);
    assert("album"@ != "track"@) by { assert("album"@[0] != "track"@[0]); }
}

/// Each value is stored and sent under the lower-case name of its variant.
pub proof fn lemma_stored_names_are_variant_names(
    p: Permission,
    a: PlaylistAccess,
    t: PlaylistType,
    r: TrackArtistRole,
)
    ensures
        p.name() == match p {
            Permission::User => "user"@,
            Permission::Moderator => "moderator"@,
            Permission::Admin => "admin"@,
        },
        a.name() == match a {
            PlaylistAccess::Shared => "shared"@,
            PlaylistAccess::Personal => "personal"@,
            PlaylistAccess::Secret => "secret"@,
        },
        t.name() == match t {
            PlaylistType::Album => "album"@,
            PlaylistType::Artist => "artist"@,
            PlaylistType::Track => "track"@,
        },
        r.name() == match r {
            TrackArtistRole::Main => "main"@,
            TrackArtistRole::Performer => "performer"@,
            TrackArtistRole::Composer => "composer"@,
            TrackArtistRole::Conductor => "conductor"@,
            TrackArtistRole::Remixer => "remixer"@,
            TrackArtistRole::Producer => "producer"@,
            TrackArtistRole::Arranger => "arranger"@,
        },
{
}

/// Distinct roles are stored under distinct names.
pub proof fn lemma_track_artist_role_names_distinct(a: TrackArtistRole, b: TrackArtistRole)
    ensures
        a.name() == b.name() ==> a == b,
{
    reveal_strlit("main");
    assert("main"@.len() == 4);
    reveal_strlit("performer");
    assert("performer"@.len() == 9);
    reveal_strlit("composer");
    assert("composer"@.len() == 8);
    reveal_strlit("conductor");
    assert("conductor"@.len() == 9);
    reveal_strlit("remixer");
    assert("remixer"@.len() == 7);
    reveal_strlit("producer");
    assert("producer"@.len() == 8);
    reveal_strlit("arranger");
    assert("arranger"@.len() == 8);
    assert("performer"@ != "conductor"@) by { assert("performer"@[0] != "conductor"@[0]); }
    assert("composer"@ != "producer"@) by { assert("composer"@[0] != "producer"@[0]); }
    assert("composer"@ != "arranger"@) by { assert("composer"@[0] != "arranger"@[0]); }
    assert("producer"@ != "arranger"@) by { assert("producer"@[0] != "arranger"@[0]); }
}


/// `s` without the slashes it ends in.
pub open spec fn trim_trailing_slashes(s: Seq<char>) -> Seq<char>
    decreases s.len(),
{
    if s.len() > 0 && s.last() == '/' {
        trim_trailing_slashes(s.drop_last())
    } else {
        s
    }
}

/// The URL of the API endpoint `path` on the server at `server_url`.
pub open spec fn endpoint_text(server_url: Seq<char>, path: Seq<char>) -> Seq<char> {
    trim_trailing_slashes(server_url) + "/api/"@ + path
}

/// The URL of the API endpoint `path` on the server at `server_url`, which
/// may end in slashes.
pub fn endpoint(server_url: &str, path: &str) -> (r: String)
    ensures
        r@ == endpoint_text(server_url@, path@),
{
    let mut k = server_url.unicode_len();
    assert(server_url@.take(k as int) =~= server_url@);
    while k > 0 && server_url.get_char(k - 1) == '/'
        invariant
            k <= server_url@.len(),
            trim_trailing_slashes(server_url@.take(k as int)) == trim_trailing_slashes(server_url@),
        decreases k,
    {
        assert(server_url@.take(k as int).drop_last() =~= server_url@.take(k - 1));
        k = k - 1;
    }
    proof {
        if k == server_url@.len() {
            assert(server_url@.take(k as int) =~= server_url@);
        }
    }
    let base = server_url.substring_char(0, k);
    let mut r = String::new();
    r.append(base);
    r.append("/api/");
    r.append(path);
    assert(r@ =~= endpoint_text(server_url@, path@));
    r
}

/// The URL of page `page` of the listing `path`.
pub open spec fn page_url_text(server_url: Seq<char>, path: Seq<char>, page: u32) -> Seq<char> {
    endpoint_text(server_url, path) + "?page="@ + decimal(page as nat)
}

/// The URL of page `page` of the listing `path`.
pub fn page_url(server_url: &str, path: &str, page: u32) -> (r: String)
    ensures
        r@ == page_url_text(server_url@, path@, page),
{
    let mut r = endpoint(server_url, path);
    r.append("?page=");
    push_decimal(&mut r, page as u64);
    r
}

/// The URL of the audio of track `track_id`, as text.
pub open spec fn track_audio_text(server_url: Seq<char>, track_id: u64) -> Seq<char> {
    endpoint_text(server_url, "tracks/"@ + decimal(track_id as nat) + "/audio"@)
}

/// The URL of the audio of track `track_id`, as text.
pub fn track_audio_url_text(server_url: &str, track_id: u64) -> (r: String)
    ensures
        r@ == track_audio_text(server_url@, track_id),
{
    let mut path = String::new();
    path.append("tracks/");
    push_decimal(&mut path, track_id);
    path.append("/audio");
    endpoint(server_url, path.as_str())
}

/// `reqwest::Url`, carried through as an opaque value.
#[verifier::external_type_specification]
#[verifier::external_body]
pub struct ExUrl(reqwest::Url);

/// What the URL parser of `reqwest` gives for `text`: the URL, or the
/// parser's message. It depends on the text alone.
pub uninterp spec fn parsed_url(text: Seq<char>) -> Result<reqwest::Url, Seq<char>>;

/// Parses `text` with the `FromStr` of `reqwest::Url` (which is
/// `url::Url::parse`); an error carries the parser's message. Claimed: the
/// outcome is `parsed_url` of the text.
#[verifier::external_body]
fn parse_url(text: &str) -> (r: Result<reqwest::Url, String>)
    ensures
        match r {
            Ok(u) => parsed_url(text@) == Ok::<reqwest::Url, Seq<char>>(u),
            Err(e) => parsed_url(text@) == Err::<reqwest::Url, Seq<char>>(e@),
        },
{
    match text.parse::<reqwest::Url>() {
        Ok(u) => Ok(u),
        Err(e) => Err(e.to_string()),
    }
}

/// A text that is no URL, with the parser's message.
#[derive(Clone, Debug, PartialEq, Eq)]
pub struct InvalidUrl(pub String);

/// The URL of the audio of track `track_id`: what the parser makes of
/// `track_audio_text`; its message when it refuses that text.
pub fn track_audio_url(server_url: &str, track_id: u64) -> (r: Result<reqwest::Url, InvalidUrl>)
    ensures
        match r {
            Ok(u) => parsed_url(track_audio_text(server_url@, track_id))
                == Ok::<reqwest::Url, Seq<char>>(u),
            Err(InvalidUrl(m)) => parsed_url(track_audio_text(server_url@, track_id))
                == Err::<reqwest::Url, Seq<char>>(m@),
        },
{
    let text = track_audio_url_text(server_url, track_id);
    match parse_url(text.as_str()) {
        Ok(u) => Ok(u),
        Err(m) => Err(InvalidUrl(m)),
    }
}

/// Whether `c` is a decimal digit.
pub open spec fn is_digit(c: char) -> bool {
    '0' <= c <= '9'
}

/// The value of a string of decimal digits, capped at 2^32.
pub open spec fn capped_value(s: Seq<char>) -> nat
    decreases s.len(),
{
    if s.len() == 0 {
        0
    } else {
        let v = capped_value(s.drop_last()) * 10 + (s.last() as int - 48);
        if v > 0x1_0000_0000 { 0x1_0000_0000 } else { v as nat }
    }
}

/// The value of a string of decimal digits.
pub open spec fn digits_value(s: Seq<char>) -> nat
    decreases s.len(),
{
    if s.len() == 0 {
        0
    } else {
        (digits_value(s.drop_last()) * 10 + (s.last() as int - 48)) as nat
    }
}

/// `s` without a leading `+`.
pub open spec fn without_plus(s: Seq<char>) -> Seq<char> {
    if s.len() > 0 && s[0] == '+' {
        s.drop_first()
    } else {
        s
    }
}

/// Whether every character of `s` is a decimal digit.
pub open spec fn all_digits(s: Seq<char>) -> bool {
    forall|i: int| 0 <= i < s.len() ==> is_digit(#[trigger] s[i])
}

/// What `u32::from_str` reads from `s`: an optional `+`, then one or more
/// decimal digits whose value fits in 32 bits; anything else is an error.
pub open spec fn u32_from_text(s: Seq<char>) -> Option<u32> {
    let d = without_plus(s);
    if d.len() > 0 && all_digits(d) && digits_value(d) <= u32::MAX {
        Some(digits_value(d) as u32)
    } else {
        None
    }
}

proof fn lemma_capped_value(s: Seq<char>)
    requires
        forall|i: int| 0 <= i < s.len() ==> is_digit(#[trigger] s[i]),
    ensures
        capped_value(s) == if digits_value(s) > 0x1_0000_0000 { 0x1_0000_0000 } else { digits_value(s) },
    decreases s.len(),
{
    if s.len() > 0 {
        assert forall|i: int| 0 <= i < s.drop_last().len() implies is_digit(#[trigger] s.drop_last()[i]) by {
            assert(s.drop_last()[i] == s[i]);
        }
        lemma_capped_value(s.drop_last());
        assert(is_digit(s[s.len() - 1]));
    }
}

proof fn lemma_digits_value_is_numeral_value(s: Seq<char>)
    requires
        all_digits(s),
    ensures
        digits_value(s) == numeral_value(s),
    decreases s.len(),
{
    if s.len() > 0 {
        assert forall|i: int| 0 <= i < s.drop_last().len() implies is_digit(#[trigger] s.drop_last()[i]) by {
            assert(s.drop_last()[i] == s[i]);
        }
        lemma_digits_value_is_numeral_value(s.drop_last());
        assert(is_digit(s[s.len() - 1]));
    }
}

/// The decimal numeral of a 32-bit number, with or without a leading `+`,
/// reads back as that number; a text with no digits, with a character that
/// is no digit after the optional `+`, or whose value exceeds 32 bits reads
/// as nothing.
pub proof fn lemma_u32_text(n: u32, s: Seq<char>)
    ensures
        u32_from_text(decimal(n as nat)) == Some(n),
        u32_from_text("+"@ + decimal(n as nat)) == Some(n),
        without_plus(s).len() == 0 ==> u32_from_text(s) is None,
        (exists|i: int| 0 <= i < without_plus(s).len() && !is_digit(#[trigger] without_plus(s)[i]))
            ==> u32_from_text(s) is None,
        all_digits(without_plus(s)) && numeral_value(without_plus(s)) > u32::MAX ==> u32_from_text(s) is None,
{
    reveal_strlit("+");
    let d = decimal(n as nat);
    lemma_decimal_reads_back(n as nat);
    assert(text_all_digits(d));
    assert forall|i: int| 0 <= i < d.len() implies is_digit(#[trigger] d[i]) by {
        assert('0' <= d[i] <= '9');
    }
    lemma_digits_value_is_numeral_value(d);
    assert(d[0] != '+');
    let p = "+"@ + d;
    assert(p[0] == '+');
    assert(p.drop_first() =~= d);
    if all_digits(without_plus(s)) {
        lemma_digits_value_is_numeral_value(without_plus(s));
    }
}

/// `s` trimmed of its trailing slashes is the part of `s` before a run of
/// slashes that reaches its end, and does not itself end in a slash.
pub proof fn lemma_trim_trailing_slashes(s: Seq<char>)
    ensures
        trim_trailing_slashes(s).len() <= s.len(),
        trim_trailing_slashes(s) == s.take(trim_trailing_slashes(s).len() as int),
        forall|i: int| trim_trailing_slashes(s).len() <= i < s.len() ==> s[i] == '/',
        trim_trailing_slashes(s).len() == 0 || trim_trailing_slashes(s).last() != '/',
    decreases s.len(),
{
    if s.len() > 0 && s.last() == '/' {
        lemma_trim_trailing_slashes(s.drop_last());
        let t = trim_trailing_slashes(s.drop_last());
        assert(s.drop_last().take(t.len() as int) =~= s.take(t.len() as int));
        assert forall|i: int| t.len() <= i < s.len() implies s[i] == '/' by {
            if i < s.len() - 1 {
                assert(s.drop_last()[i] == s[i]);
            }
        }
    } else {
        assert(s.take(s.len() as int) =~= s);
    }
}

/// Reads a number of pages as `u32::from_str` does.
pub fn parse_u32(s: &str) -> (r: Option<u32>)
    ensures
        r == u32_from_text(s@),
{
    let n = s.unicode_len();
    let start: usize = if n > 0 && s.get_char(0) == '+' { 1 } else { 0 };
    let ghost d = without_plus(s@);
    assert(d =~= s@.skip(start as int));
    if start == n {
        return None;
    }
    let mut acc: u64 = 0;
    let mut i: usize = start;
    while i < n
        invariant
            start <= i <= n == s@.len(),
            d == s@.skip(start as int),
            d == without_plus(s@),
            forall|j: int| 0 <= j < i - start ==> is_digit(#[trigger] d[j]),
            acc == capped_value(d.take(i - start)),
            acc <= 0x1_0000_0000,
        decreases n - i,
    {
        let c = s.get_char(i);
        if !('0' <= c && c <= '9') {
            assert(!is_digit(d[i - start]));
            assert(!all_digits(d));
            return None;
        }
        let digit_value: u64 = (c as u32 - 48) as u64;
        let v = acc * 10 + digit_value;
        assert(d.take(i - start + 1).drop_last() =~= d.take(i - start));
        assert(d.take(i - start + 1).last() == c);
        acc = if v > 0x1_0000_0000 { 0x1_0000_0000 } else { v };
        i = i + 1;
    }
    assert(d.take(n - start) =~= d);
    proof {
        lemma_capped_value(d);
    }
    if acc > 0xffff_ffff {
        None
    } else {
        Some(acc as u32)
    }
}

/// The `x-total-pages` header of a listing response was missing or no number.
#[derive(Clone, Copy, Debug, PartialEq, Eq, Structural)]
pub struct MissingTotalPages;

/// The number of pages a listing response reports in its `x-total-pages`
/// header, given as text when it is present and readable.
pub fn total_pages(header: Option<&str>) -> (r: Result<u32, MissingTotalPages>)
    ensures
        header is None ==> r == Err::<u32, MissingTotalPages>(MissingTotalPages),
        header matches Some(h) ==> r == match u32_from_text(h@) {
            Some(n) => Ok::<u32, MissingTotalPages>(n),
            None => Err(MissingTotalPages),
        },
{
    match header {
        Some(h) => match parse_u32(h) {
            Some(n) => Ok(n),
            None => Err(MissingTotalPages),
        },
        None => Err(MissingTotalPages),
    }
}

/// The error a response with a failure status gives: the status and the body.
pub fn server_error(status: &str, body: &str) -> (r: String)
    ensures
        r@ == "server returned "@ + status@ + ": "@ + body@,
{
    let mut r = String::new();
    r.append("server returned ");
    r.append(status);
    r.append(": ");
    r.append(body);
    r
}

} // verus!

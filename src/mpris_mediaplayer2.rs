use vstd::prelude::*;

use crate::text::{contains_spec, str_contains};

verus! {

/// The mathematical value of a track snapshot: three character sequences.
pub struct Track {
    pub artist: Seq<char>,
    pub title: Seq<char>,
    pub album: Seq<char>,
}

/// The empty snapshot: every field is the empty string.
pub open spec fn empty_track() -> Track {
    Track { artist: Seq::empty(), title: Seq::empty(), album: Seq::empty() }
}

/// Metadata of the track that a media player reports.
pub struct PlayerMetadata {
    pub artist: String,
    pub title: String,
    pub album: String,
}

impl View for PlayerMetadata {
    type V = Track;

    open spec fn view(&self) -> Track {
        Track { artist: self.artist@, title: self.title@, album: self.album@ }
    }
}

impl PlayerMetadata {
    /// A snapshot with every field empty.
    pub fn new() -> (r: PlayerMetadata)
        ensures
            r@ == empty_track(),
    {
        PlayerMetadata { artist: String::new(), title: String::new(), album: String::new() }
    }
}

impl PartialEq for PlayerMetadata {
    /// Structural equality over all three fields.
    fn eq(&self, other: &PlayerMetadata) -> (r: bool) {
        self.artist == other.artist && self.title == other.title && self.album == other.album
    }
}

impl vstd::std_specs::cmp::PartialEqSpecImpl for PlayerMetadata {
    open spec fn obeys_eq_spec() -> bool {
        true
    }

    open spec fn eq_spec(&self, other: &PlayerMetadata) -> bool {
        self@ == other@
    }
}

/// How a player reports the artist: as a list of names or as one string.
pub enum ArtistField {
    List(Vec<String>),
    Single(String),
}

/// `start` followed by each name of `names`, each name followed by a space.
pub open spec fn joined_artists(start: Seq<char>, names: Seq<Seq<char>>) -> Seq<char>
    decreases names.len(),
{
    if names.len() == 0 {
        start
    } else {
        joined_artists(start, names.drop_last()) + names.last() + " "@
    }
}

/// The artist text after reading the artist field `f` over `current`.
pub open spec fn artist_after(current: Seq<char>, f: Option<ArtistField>) -> Seq<char> {
    match f {
        None => current,
        Some(ArtistField::List(v)) => joined_artists(current, v@.map_values(|s: String| s@)),
        Some(ArtistField::Single(a)) => a@,
    }
}

/// A field after reading an optional reported value over `current`.
pub open spec fn field_after(current: Seq<char>, f: Option<String>) -> Seq<char> {
    match f {
        None => current,
        Some(v) => v@,
    }
}

/// `s` with every non-overlapping occurrence of `pat`, searched from the
/// left, replaced by `to`.
pub open spec fn replace_spec(s: Seq<char>, pat: Seq<char>, to: Seq<char>) -> Seq<char>
    decreases s.len(),
{
    if pat.len() == 0 || s.len() < pat.len() {
        s
    } else if s.subrange(0, pat.len() as int) == pat {
        to + replace_spec(s.subrange(pat.len() as int, s.len() as int), pat, to)
    } else {
        seq![s[0]] + replace_spec(s.subrange(1, s.len() as int), pat, to)
    }
}

/// Relies on `str::replace` with a non-empty `&str` pattern: each match,
/// found left to right without overlap, is replaced.
#[verifier::external_body]
fn str_replace(s: &str, pat: &str, to: &str) -> (r: String)
    requires
        pat@.len() > 0,
    ensures
        r@ == replace_spec(s@, pat@, to@),
{
    s.replace(pat, to)
}

/// The bus name prefix of media players.
pub open spec fn player_prefix() -> Seq<char> {
    "org.mpris.MediaPlayer2."@
}

/// The player identities among the registered bus names `names`: each name
/// that holds the media-player prefix, with the prefix taken out.
pub open spec fn players_of(names: Seq<Seq<char>>) -> Seq<Seq<char>>
    decreases names.len(),
{
    if names.len() == 0 {
        Seq::empty()
    } else if contains_spec(names.last(), player_prefix()) {
        players_of(names.drop_last()).push(replace_spec(names.last(), player_prefix(), Seq::empty()))
    } else {
        players_of(names.drop_last())
    }
}

/// The media players among the registered bus names, in listing order.
pub fn media_players_from_names(names: &Vec<String>) -> (r: Vec<String>)
    ensures
        r@.map_values(|s: String| s@) == players_of(names@.map_values(|s: String| s@)),
{
    let prefix = "org.mpris.MediaPlayer2.";
    proof {
        reveal_strlit("org.mpris.MediaPlayer2.");
    }
    let mut out: Vec<String> = Vec::new();
    let mut i: usize = 0;
    while i < names.len()
        invariant
            i <= names@.len(),
            prefix@ == player_prefix(),
            prefix@.len() > 0,
            out@.map_values(|s: String| s@) == players_of(names@.subrange(0, i as int).map_values(|s: String| s@)),
        decreases names@.len() - i,
    {
        let ghost before = names@.subrange(0, i as int).map_values(|s: String| s@);
        proof {
            assert(names@.subrange(0, i + 1).map_values(|s: String| s@).drop_last() =~= before);
            assert(names@.subrange(0, i + 1).map_values(|s: String| s@).last() == names@[i as int]@);
        }
        if str_contains(names[i].as_str(), prefix) {
            let id = str_replace(names[i].as_str(), prefix, "");
            out.push(id);
            proof {
                assert(""@ =~= Seq::<char>::empty()) by {
                    reveal_strlit("");
                }
                assert(out@.map_values(|s: String| s@) =~= players_of(
                    names@.subrange(0, i + 1).map_values(|s: String| s@),
                ));
            }
        }
        i = i + 1;
    }
    proof {
        assert(names@.subrange(0, i as int) =~= names@);
    }
    out
}

/// Whether a reported playback status means the player is playing.
pub fn is_playing_status(status: &String) -> (r: bool)
    ensures
        r == (status@ == "Playing"@),
{
    let playing = String::from_str("Playing");
    *status == playing
}

impl PlayerMetadata {
    /// The snapshot after reading the fields a player reported: a field that
    /// was reported replaces the current value; an artist list is joined,
    /// each name followed by a space.
    pub fn update_metadata_of_player(
        self,
        artist: Option<ArtistField>,
        title: Option<String>,
        album: Option<String>,
    ) -> (r: PlayerMetadata)
        ensures
            r.artist@ == artist_after(self.artist@, artist),
            r.title@ == field_after(self.title@, title),
            r.album@ == field_after(self.album@, album),
    {
        let mut m = self;
        let ghost start = m.artist@;
        let ghost title0 = m.title@;
        let ghost album0 = m.album@;
        match artist {
            None => {},
            Some(ArtistField::List(names)) => {
                let mut i: usize = 0;
                while i < names.len()
                    invariant
                        i <= names@.len(),
                        m.artist@ == joined_artists(start, names@.subrange(0, i as int).map_values(|s: String| s@)),
                        m.title@ == title0,
                        m.album@ == album0,
                    decreases names@.len() - i,
                {
                    proof {
                        let v = names@.subrange(0, i + 1).map_values(|s: String| s@);
                        assert(v.drop_last() =~= names@.subrange(0, i as int).map_values(|s: String| s@));
                        assert(v.last() == names@[i as int]@);
                    }
                    m.artist.append(names[i].as_str());
                    m.artist.append(" ");
                    i = i + 1;
                }
                proof {
                    assert(names@.subrange(0, i as int) =~= names@);
                }
            },
            Some(ArtistField::Single(a)) => {
                m.artist = a;
            },
        }
        match title {
            None => {},
            Some(t) => {
                m.title = t;
            },
        }
        match album {
            None => {},
            Some(a) => {
                m.album = a;
            },
        }
        m
    }
}

} // verus!

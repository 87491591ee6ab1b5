use vstd::prelude::*;

use crate::rating::{round_rating, rounded};
use crate::text::{before_char, join, joined, replace_all, replaced, text_before, views};

verus! {

/// Where a game without a cover points its image.
pub const NO_COVER_URL: &'static str = "https://images.igdb.com/igdb/image/upload/t_cover_big_2x/nocover.png";

/// A platform record as the database sends it: every field may be missing.
#[derive(Debug, Clone)]
pub struct RawPlatform {
    pub abbreviation: Option<String>,
    pub name: Option<String>,
    /// The protocol-relative url of the platform's logo.
    pub logo_url: Option<String>,
}

/// A related game as the database sends it.
#[derive(Debug, Clone)]
pub struct RawSimilarGame {
    pub id: usize,
    pub name: String,
    /// The protocol-relative url of the cover.
    pub cover_url: Option<String>,
}

/// A game record as the database sends it. Lists of named things (genres,
/// themes, modes, companies) are held as their names.
#[derive(Debug, Clone)]
pub struct RawGame {
    pub id: usize,
    pub name: String,
    pub cover_url: Option<String>,
    /// Seconds since the Unix epoch.
    pub first_release_date: Option<usize>,
    pub platforms: Option<Vec<RawPlatform>>,
    /// The rating, a single-precision float from 0 to 100, as its IEEE-754
    /// bits.
    pub total_rating: Option<u32>,
    pub url: Option<String>,
    pub summary: Option<String>,
    pub genres: Option<Vec<String>>,
    pub themes: Option<Vec<String>>,
    pub game_modes: Option<Vec<String>>,
    pub involved_companies: Option<Vec<String>>,
    pub screenshots: Option<Vec<String>>,
    pub similar_games: Option<Vec<RawSimilarGame>>,
}

#[derive(Debug, Clone, PartialEq, Eq)]
pub struct Platform {
    pub name: String,
    pub abbreviation: String,
    pub logo: String,
}

#[derive(Debug, Clone, PartialEq, Eq)]
pub struct SimilarGame {
    pub id: usize,
    pub name: String,
    pub image: String,
}

/// A game ready for display: no field is optional.
#[derive(Debug, Clone, PartialEq, Eq)]
pub struct Game {
    pub id: usize,
    pub name: String,
    pub image: String,
    pub first_release_date: String,
    pub platforms: Vec<Platform>,
    pub total_rating: u32,
    pub url: String,
    pub summary: String,
    pub genres: String,
    pub themes: String,
    pub game_modes: String,
    pub involved_companies: String,
    pub screenshots: Vec<String>,
    pub similar_games: Vec<SimilarGame>,
}

/// Why a record could not be normalized.
#[derive(Debug, Clone, Copy, PartialEq, Eq, Structural)]
pub enum NormalizeError {
    /// The release date is not a representable point in time.
    InvalidDate,
}

pub ghost struct PlatformModel {
    pub name: Seq<char>,
    pub abbreviation: Seq<char>,
    pub logo: Seq<char>,
}

pub ghost struct SimilarGameModel {
    pub id: usize,
    pub name: Seq<char>,
    pub image: Seq<char>,
}

pub ghost struct GameModel {
    pub id: usize,
    pub name: Seq<char>,
    pub image: Seq<char>,
    pub first_release_date: Seq<char>,
    pub platforms: Seq<PlatformModel>,
    pub total_rating: u32,
    pub url: Seq<char>,
    pub summary: Seq<char>,
    pub genres: Seq<char>,
    pub themes: Seq<char>,
    pub game_modes: Seq<char>,
    pub involved_companies: Seq<char>,
    pub screenshots: Seq<Seq<char>>,
    pub similar_games: Seq<SimilarGameModel>,
}

impl View for Platform {
    type V = PlatformModel;

    open spec fn view(&self) -> PlatformModel {
        PlatformModel { name: self.name@, abbreviation: self.abbreviation@, logo: self.logo@ }
    }
}

impl View for SimilarGame {
    type V = SimilarGameModel;

    open spec fn view(&self) -> SimilarGameModel {
        SimilarGameModel { id: self.id, name: self.name@, image: self.image@ }
    }
}

impl View for Game {
    type V = GameModel;

    open spec fn view(&self) -> GameModel {
        GameModel {
            id: self.id,
            name: self.name@,
            image: self.image@,
            first_release_date: self.first_release_date@,
            platforms: self.platforms@.map_values(|p: Platform| p@),
            total_rating: self.total_rating,
            url: self.url@,
            summary: self.summary@,
            genres: self.genres@,
            themes: self.themes@,
            game_modes: self.game_modes@,
            involved_companies: self.involved_companies@,
            screenshots: views(self.screenshots@),
            similar_games: self.similar_games@.map_values(|g: SimilarGame| g@),
        }
    }
}

/// The text of an optional string, empty when it is missing.
pub open spec fn text_or_empty(s: Option<String>) -> Seq<char> {
    match s {
        Some(t) => t@,
        None => Seq::empty(),
    }
}

/// A protocol-relative url made absolute over https.
pub open spec fn absolute_url(u: Seq<char>) -> Seq<char> {
    "https:"@ + u
}

/// An absolute cover or screenshot url, moved from the thumbnail size to the
/// large cover size.
pub open spec fn large_image_url(u: Seq<char>) -> Seq<char> {
    replaced(absolute_url(u), "t_thumb"@, "t_cover_big_2x"@)
}

/// A list of names as one comma-separated text; empty when it is missing.
pub open spec fn names_text(names: Option<Vec<String>>) -> Seq<char> {
    match names {
        Some(v) => joined(views(v@), ", "@),
        None => Seq::empty(),
    }
}

pub open spec fn platform_model(p: RawPlatform) -> PlatformModel {
    PlatformModel {
        name: text_or_empty(p.name),
        abbreviation: text_or_empty(p.abbreviation),
        logo: match p.logo_url {
            Some(u) => absolute_url(u@),
            None => Seq::empty(),
        },
    }
}

pub open spec fn similar_game_model(g: RawSimilarGame) -> SimilarGameModel {
    SimilarGameModel {
        id: g.id,
        name: g.name@,
        image: match g.cover_url {
            Some(u) => large_image_url(u@),
            None => Seq::empty(),
        },
    }
}

pub open spec fn cover_image(cover_url: Option<String>) -> Seq<char> {
    match cover_url {
        Some(u) => large_image_url(u@),
        None => NO_COVER_URL@,
    }
}

pub open spec fn platforms_model(ps: Option<Vec<RawPlatform>>) -> Seq<PlatformModel> {
    match ps {
        Some(v) => v@.map_values(|p: RawPlatform| platform_model(p)),
        None => Seq::empty(),
    }
}

pub open spec fn screenshots_model(ss: Option<Vec<String>>) -> Seq<Seq<char>> {
    match ss {
        Some(v) => v@.map_values(|s: String| large_image_url(s@)),
        None => Seq::empty(),
    }
}

pub open spec fn similar_games_model(gs: Option<Vec<RawSimilarGame>>) -> Seq<SimilarGameModel> {
    match gs {
        Some(v) => v@.map_values(|g: RawSimilarGame| similar_game_model(g)),
        None => Seq::empty(),
    }
}


/// The Debug text of the date and time that chrono makes of `secs` seconds
/// after the Unix epoch, or `None` where that lies outside chrono's range.
pub uninterp spec fn datetime_text(secs: int) -> Option<Seq<char>>;

/// Relies on chrono's `NaiveDateTime::from_timestamp_opt(secs, 0)` and the
/// Debug form of its result (`YYYY-MM-DDTHH:MM:SS`): `None` when `secs` is out
/// of range, and the epoch itself for zero.
#[verifier::external_body]
#[allow(deprecated)]
fn timestamp_text(secs: i64) -> (r: Option<String>)
    ensures
        match r {
            Some(t) => datetime_text(secs as int) == Some(t@),
            None => datetime_text(secs as int) is None,
        },
        secs == 0 ==> (r is Some && r->0@ == "1970-01-01T00:00:00"@),
{
    chrono::NaiveDateTime::from_timestamp_opt(secs, 0).map(|d| format!("{:?}", d))
}

/// The calendar date (`YYYY-MM-DD`) of an optional release time; empty when
/// it is missing, `None` when the time cannot be represented.
pub open spec fn release_date(date: Option<usize>) -> Option<Seq<char>> {
    match date {
        None => Some(Seq::empty()),
        Some(secs) => if secs > i64::MAX {
            None
        } else {
            match datetime_text(secs as int) {
                Some(t) => Some(before_char(t, 'T')),
                None => None,
            }
        },
    }
}

/// The normalized form of a raw record, or `None` where its release date
/// cannot be represented.
pub open spec fn normalized(raw: RawGame) -> Option<GameModel> {
    match release_date(raw.first_release_date) {
        None => None,
        Some(date) => Some(
            GameModel {
                id: raw.id,
                name: raw.name@,
                image: cover_image(raw.cover_url),
                first_release_date: date,
                platforms: platforms_model(raw.platforms),
                total_rating: match raw.total_rating {
                    Some(bits) => rounded(bits),
                    None => 0,
                },
                url: text_or_empty(raw.url),
                summary: text_or_empty(raw.summary),
                genres: names_text(raw.genres),
                themes: names_text(raw.themes),
                game_modes: names_text(raw.game_modes),
                involved_companies: names_text(raw.involved_companies),
                screenshots: screenshots_model(raw.screenshots),
                similar_games: similar_games_model(raw.similar_games),
            },
        ),
    }
}

fn text_or_empty_of(s: &Option<String>) -> (r: String)
    ensures
        r@ == text_or_empty(*s),
{
    match s {
        Some(t) => t.clone(),
        None => String::new(),
    }
}

/// Makes a protocol-relative url absolute over https.
pub fn absolute(u: &str) -> (r: String)
    ensures
        r@ == absolute_url(u@),
{
    let mut r = String::new();
    r.append("https:");
    r.append(u);
    r
}

/// Makes a cover or screenshot url absolute and asks for its large size.
pub fn large_image(u: &str) -> (r: String)
    ensures
        r@ == large_image_url(u@),
{
    let a = absolute(u);
    proof {
        reveal_strlit("t_thumb");
    }
    replace_all(a.as_str(), "t_thumb", "t_cover_big_2x")
}

/// Joins an optional list of names with ", "; empty when it is missing.
pub fn names(list: &Option<Vec<String>>) -> (r: String)
    ensures
        r@ == names_text(*list),
{
    match list {
        Some(v) => join(v, ", "),
        None => String::new(),
    }
}

pub fn normalize_platform(p: &RawPlatform) -> (r: Platform)
    ensures
        r@ == platform_model(*p),
{
    Platform {
        name: text_or_empty_of(&p.name),
        abbreviation: text_or_empty_of(&p.abbreviation),
        logo: match &p.logo_url {
            Some(u) => absolute(u.as_str()),
            None => String::new(),
        },
    }
}

pub fn normalize_similar_game(g: &RawSimilarGame) -> (r: SimilarGame)
    ensures
        r@ == similar_game_model(*g),
{
    SimilarGame {
        id: g.id,
        name: g.name.clone(),
        image: match &g.cover_url {
            Some(u) => large_image(u.as_str()),
            None => String::new(),
        },
    }
}

fn normalize_platforms(list: &Option<Vec<RawPlatform>>) -> (r: Vec<Platform>)
    ensures
        r@.map_values(|p: Platform| p@) == platforms_model(*list),
{
    let mut r: Vec<Platform> = Vec::new();
    if let Some(ps) = list {
        let mut i: usize = 0;
        while i < ps.len()
            invariant
                i <= ps.len(),
                r.len() == i,
                forall|j: int| 0 <= j < i ==> #[trigger] r@[j]@ == platform_model(ps@[j]),
            decreases ps.len() - i,
        {
            r.push(normalize_platform(&ps[i]));
            i = i + 1;
        }
        assert(r@.map_values(|p: Platform| p@) =~= ps@.map_values(|p: RawPlatform| platform_model(p)));
    } else {
        assert(r@.map_values(|p: Platform| p@) =~= Seq::<PlatformModel>::empty());
    }
    r
}

fn normalize_screenshots(list: &Option<Vec<String>>) -> (r: Vec<String>)
    ensures
        views(r@) == screenshots_model(*list),
{
    let mut r: Vec<String> = Vec::new();
    if let Some(ss) = list {
        let mut i: usize = 0;
        while i < ss.len()
            invariant
                i <= ss.len(),
                r.len() == i,
                forall|j: int| 0 <= j < i ==> #[trigger] r@[j]@ == large_image_url(ss@[j]@),
            decreases ss.len() - i,
        {
            r.push(large_image(ss[i].as_str()));
            i = i + 1;
        }
        assert(views(r@) =~= ss@.map_values(|s: String| large_image_url(s@)));
    } else {
        assert(views(r@) =~= Seq::<Seq<char>>::empty());
    }
    r
}

fn normalize_similar_games(list: &Option<Vec<RawSimilarGame>>) -> (r: Vec<SimilarGame>)
    ensures
        r@.map_values(|g: SimilarGame| g@) == similar_games_model(*list),
{
    let mut r: Vec<SimilarGame> = Vec::new();
    if let Some(gs) = list {
        let mut i: usize = 0;
        while i < gs.len()
            invariant
                i <= gs.len(),
                r.len() == i,
                forall|j: int| 0 <= j < i ==> #[trigger] r@[j]@ == similar_game_model(gs@[j]),
            decreases gs.len() - i,
        {
            r.push(normalize_similar_game(&gs[i]));
            i = i + 1;
        }
        assert(r@.map_values(|g: SimilarGame| g@) =~= gs@.map_values(
            |g: RawSimilarGame| similar_game_model(g),
        ));
    } else {
        assert(r@.map_values(|g: SimilarGame| g@) =~= Seq::<SimilarGameModel>::empty());
    }
    r
}

/// The date part of a `YYYY-MM-DDTHH:MM:SS` date-and-time text: all before
/// the first `T`.
pub fn date_part(datetime: &str) -> (r: String)
    ensures
        r@ == before_char(datetime@, 'T'),
{
    text_before(datetime, 'T')
}

/// The calendar date of an optional release time, as `YYYY-MM-DD`.
pub fn release_date_text(date: Option<usize>) -> (r: Result<String, NormalizeError>)
    ensures
        match r {
            Ok(t) => release_date(date) == Some(t@),
            Err(e) => release_date(date) is None && e == NormalizeError::InvalidDate,
        },
        date == Some(0usize) ==> (r is Ok && r->Ok_0@ == "1970-01-01"@),
{
    match date {
        None => Ok(String::new()),
        Some(secs) => {
            if secs as u64 > i64::MAX as u64 {
                return Err(NormalizeError::InvalidDate);
            }
            match timestamp_text(secs as i64) {
                Some(t) => {
                    proof {
                        if secs == 0 {
                            reveal_strlit("1970-01-01T00:00:00");
                            reveal_strlit("1970-01-01");
                            reveal_with_fuel(before_char, 12);
                            assert(before_char(t@, 'T') =~= "1970-01-01"@);
                        }
                    }
                    Ok(date_part(t.as_str()))
                },
                None => Err(NormalizeError::InvalidDate),
            }
        },
    }
}

/// Turns a raw record into a `Game`, giving every missing field its default.
pub fn normalize(raw: &RawGame) -> (r: Result<Game, NormalizeError>)
    ensures
        match r {
            Ok(g) => normalized(*raw) == Some(g@),
            Err(e) => normalized(*raw) is None && e == NormalizeError::InvalidDate,
        },
        raw.first_release_date == Some(0usize) ==> (r is Ok && r->Ok_0.first_release_date@
            == "1970-01-01"@),
{
    let date = match release_date_text(raw.first_release_date) {
        Ok(d) => d,
        Err(e) => return Err(e),
    };
    let image = match &raw.cover_url {
        Some(u) => large_image(u.as_str()),
        None => NO_COVER_URL.to_owned(),
    };
    let g = Game {
        id: raw.id,
        name: raw.name.clone(),
        image,
        first_release_date: date,
        platforms: normalize_platforms(&raw.platforms),
        total_rating: match raw.total_rating {
            Some(bits) => round_rating(bits),
            None => 0,
        },
        url: text_or_empty_of(&raw.url),
        summary: text_or_empty_of(&raw.summary),
        genres: names(&raw.genres),
        themes: names(&raw.themes),
        game_modes: names(&raw.game_modes),
        involved_companies: names(&raw.involved_companies),
        screenshots: normalize_screenshots(&raw.screenshots),
        similar_games: normalize_similar_games(&raw.similar_games),
    };
    assert(g@ == normalized(*raw)->0);
    Ok(g)
}

} // verus!

use leptos_igdb::game::{
    absolute, date_part, large_image, names, normalize, normalize_platform, normalize_similar_game,
    release_date_text, Game, NormalizeError, Platform, RawGame, RawPlatform, RawSimilarGame,
    SimilarGame, NO_COVER_URL,
};
use leptos_igdb::rating::{round_rating, HUNDRED_BITS};
use leptos_igdb::text::join;

fn bare(id: usize, name: &str) -> RawGame {
    RawGame {
        id,
        name: name.to_string(),
        cover_url: None,
        first_release_date: None,
        platforms: None,
        total_rating: None,
        url: None,
        summary: None,
        genres: None,
        themes: None,
        game_modes: None,
        involved_companies: None,
        screenshots: None,
        similar_games: None,
    }
}

fn strings(items: &[&str]) -> Vec<String> {
    items.iter().map(|s| s.to_string()).collect()
}

#[test]
fn missing_cover_gives_placeholder() {
    let g = normalize(&bare(1, "A")).unwrap();
    assert_eq!(g.image, NO_COVER_URL);
    assert_eq!(
        g.image,
        "https://images.igdb.com/igdb/image/upload/t_cover_big_2x/nocover.png"
    );
}

#[test]
fn thumbnail_cover_is_upgraded() {
    let mut raw = bare(1, "A");
    raw.cover_url = Some("//x/t_thumb/y.jpg".to_string());
    let g = normalize(&raw).unwrap();
    assert_eq!(g.image, "https://x/t_cover_big_2x/y.jpg");
}

#[test]
fn every_thumbnail_token_is_replaced() {
    assert_eq!(large_image("//a/t_thumb/t_thumb.jpg"), "https://a/t_cover_big_2x/t_cover_big_2x.jpg");
    assert_eq!(large_image("//a/b.jpg"), "https://a/b.jpg");
}

#[test]
fn absolute_prefixes_https() {
    assert_eq!(absolute("//host/p.png"), "https://host/p.png");
    assert_eq!(absolute(""), "https:");
}

#[test]
fn rating_is_kept_or_zero() {
    let mut raw = bare(1, "A");
    assert_eq!(normalize(&raw).unwrap().total_rating, 0);
    raw.total_rating = Some(86.6f32.to_bits());
    assert_eq!(normalize(&raw).unwrap().total_rating, 87);
    raw.total_rating = Some(90.0f32.to_bits());
    assert_eq!(normalize(&raw).unwrap().total_rating, 90);
}

#[test]
fn rounding_matches_float_round() {
    let cases: [f32; 16] = [
        0.0, 0.4, 0.5, 1.5, 2.5, 86.49, 86.5, 89.99, 90.0, 99.5, 100.0, -0.6, -3.0, 1e10,
        f32::MIN_POSITIVE, 4294967040.0,
    ];
    for r in cases {
        assert_eq!(round_rating(r.to_bits()), r.round() as u32, "rating {r}");
    }
    assert_eq!(round_rating(0.5f32.to_bits()), 1);
    assert_eq!(round_rating(86.5f32.to_bits()), 87);
    assert_eq!(round_rating(100.0f32.to_bits()), 100);
    assert_eq!(round_rating(f32::NAN.to_bits()), 0);
    assert_eq!(round_rating(f32::INFINITY.to_bits()), u32::MAX);
    assert_eq!(round_rating(f32::NEG_INFINITY.to_bits()), 0);
    assert_eq!(round_rating((-7.0f32).to_bits()), 0);
    assert_eq!(100.0f32.to_bits(), HUNDRED_BITS);
}

#[test]
fn genres_absent_empty_and_joined() {
    let mut raw = bare(1, "A");
    assert_eq!(normalize(&raw).unwrap().genres, "");
    raw.genres = Some(vec![]);
    assert_eq!(normalize(&raw).unwrap().genres, "");
    raw.genres = Some(strings(&["RPG", "Action"]));
    assert_eq!(normalize(&raw).unwrap().genres, "RPG, Action");
}

#[test]
fn join_places_separator_between_items() {
    assert_eq!(join(&strings(&[]), ", "), "");
    assert_eq!(join(&strings(&["one"]), ", "), "one");
    assert_eq!(join(&strings(&["a", "b", "c"]), "-"), "a-b-c");
    assert_eq!(names(&None), "");
    assert_eq!(names(&Some(strings(&["Single player", "Multiplayer"]))), "Single player, Multiplayer");
}

#[test]
fn themes_modes_and_companies_are_joined() {
    let mut raw = bare(1, "A");
    raw.themes = Some(strings(&["Fantasy", "Open world"]));
    raw.game_modes = Some(strings(&["Single player"]));
    raw.involved_companies = Some(strings(&["Nintendo", "Monolith"]));
    let g = normalize(&raw).unwrap();
    assert_eq!(g.themes, "Fantasy, Open world");
    assert_eq!(g.game_modes, "Single player");
    assert_eq!(g.involved_companies, "Nintendo, Monolith");
}

#[test]
fn epoch_date_and_missing_date() {
    let mut raw = bare(1, "A");
    assert_eq!(normalize(&raw).unwrap().first_release_date, "");
    raw.first_release_date = Some(0);
    assert_eq!(normalize(&raw).unwrap().first_release_date, "1970-01-01");
}

#[test]
fn date_drops_time_of_day() {
    assert_eq!(release_date_text(Some(1_000_000_000)).unwrap(), "2001-09-09");
    assert_eq!(release_date_text(Some(86_399)).unwrap(), "1970-01-01");
    assert_eq!(release_date_text(Some(86_400)).unwrap(), "1970-01-02");
}

#[test]
fn unrepresentable_date_fails_the_record() {
    let mut raw = bare(1, "A");
    raw.first_release_date = Some(usize::MAX);
    assert_eq!(normalize(&raw), Err(NormalizeError::InvalidDate));
    assert_eq!(release_date_text(Some(i64::MAX as usize)), Err(NormalizeError::InvalidDate));
}

#[test]
fn normalizing_twice_gives_equal_games() {
    let mut raw = bare(7, "Twice");
    raw.cover_url = Some("//c/t_thumb/z.jpg".to_string());
    raw.genres = Some(strings(&["RPG"]));
    raw.first_release_date = Some(1_500_000_000);
    let a: Game = normalize(&raw).unwrap();
    let b: Game = normalize(&raw).unwrap();
    assert_eq!(a, b);
}

#[test]
fn platform_logo_keeps_its_size() {
    let mut raw = bare(1, "Game A");
    raw.platforms = Some(vec![RawPlatform {
        abbreviation: Some("PC".to_string()),
        name: Some("PC".to_string()),
        logo_url: Some("//x/t_logo_med/p.png".to_string()),
    }]);
    let g = normalize(&raw).unwrap();
    assert_eq!(g.id, 1);
    assert_eq!(g.name, "Game A");
    assert_eq!(
        g.platforms,
        vec![Platform {
            name: "PC".to_string(),
            abbreviation: "PC".to_string(),
            logo: "https://x/t_logo_med/p.png".to_string(),
        }]
    );
}

#[test]
fn platform_fields_default_to_empty() {
    let p = normalize_platform(&RawPlatform { abbreviation: None, name: None, logo_url: None });
    assert_eq!(p, Platform { name: String::new(), abbreviation: String::new(), logo: String::new() });
}

#[test]
fn similar_game_without_cover_has_empty_image() {
    let g = normalize_similar_game(&RawSimilarGame { id: 3, name: "B".to_string(), cover_url: None });
    assert_eq!(g, SimilarGame { id: 3, name: "B".to_string(), image: String::new() });
    let h = normalize_similar_game(&RawSimilarGame {
        id: 4,
        name: "C".to_string(),
        cover_url: Some("//s/t_thumb/c.jpg".to_string()),
    });
    assert_eq!(h.image, "https://s/t_cover_big_2x/c.jpg");
}

#[test]
fn lists_are_kept_in_order() {
    let mut raw = bare(1, "A");
    assert!(normalize(&raw).unwrap().screenshots.is_empty());
    assert!(normalize(&raw).unwrap().similar_games.is_empty());
    assert!(normalize(&raw).unwrap().platforms.is_empty());
    raw.screenshots = Some(strings(&["//s/t_thumb/1.jpg", "//s/t_thumb/2.jpg"]));
    raw.similar_games = Some(vec![]);
    raw.url = Some("https://www.igdb.com/games/a".to_string());
    raw.summary = Some("About A".to_string());
    let g = normalize(&raw).unwrap();
    assert_eq!(
        g.screenshots,
        strings(&["https://s/t_cover_big_2x/1.jpg", "https://s/t_cover_big_2x/2.jpg"])
    );
    assert!(g.similar_games.is_empty());
    assert_eq!(g.url, "https://www.igdb.com/games/a");
    assert_eq!(g.summary, "About A");
}

#[test]
fn date_part_drops_the_time() {
    assert_eq!(date_part("2001-09-09T01:46:40"), "2001-09-09");
    assert_eq!(date_part("+10000-12-31T00:00:00"), "+10000-12-31");
    assert_eq!(date_part("no time here"), "no time here");
    assert_eq!(date_part(""), "");
}

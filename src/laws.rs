use vstd::prelude::*;

use crate::game::{normalized, GameModel, RawGame, NO_COVER_URL};
use crate::rating::{rounded, rounded_percent_stays_in_range, HUNDRED_BITS};
use crate::text::{joined, replaced, replaced_passes_prefix, views};

verus! {

/// A record without a cover shows the placeholder image.
pub proof fn missing_cover_shows_placeholder(raw: RawGame)
    requires
        raw.cover_url is None,
        normalized(raw) is Some,
    ensures
        normalized(raw)->0.image == NO_COVER_URL@,
{
}

/// A thumbnail cover url `//x/t_thumb/y.jpg` becomes the absolute large cover
/// url `https://x/t_cover_big_2x/y.jpg`.
pub proof fn thumbnail_cover_becomes_large(raw: RawGame)
    requires
        raw.cover_url is Some,
        raw.cover_url->0@ == "//x/t_thumb/y.jpg"@,
        normalized(raw) is Some,
    ensures
        normalized(raw)->0.image == "https://x/t_cover_big_2x/y.jpg"@,
{
    reveal_strlit("//x/t_thumb/y.jpg");
    reveal_strlit("https:");
    reveal_strlit("t_thumb");
    reveal_strlit("t_cover_big_2x");
    reveal_strlit("https://x/t_cover_big_2x/y.jpg");
    let pre = "https://x/"@;
    let tail = "/y.jpg"@;
    reveal_strlit("https://x/");
    reveal_strlit("/y.jpg");
    let from = "t_thumb"@;
    let to = "t_cover_big_2x"@;
    let s = "https:"@ + "//x/t_thumb/y.jpg"@;
    assert(s =~= pre + (from + tail));
    replaced_passes_prefix(pre, from + tail, from, to);
    assert((from + tail).subrange(0, from.len() as int) =~= from);
    assert((from + tail).skip(from.len() as int) =~= tail);
    assert(replaced(from + tail, from, to) == to + replaced(tail, from, to));
    assert(replaced(tail, from, to) == tail);
    assert(pre + (to + tail) =~= "https://x/t_cover_big_2x/y.jpg"@);
}

/// The rating is the given rating rounded to the nearest whole number, or
/// zero when there is none; a rating from 0 to 100 stays within 0 to 100.
pub proof fn rating_is_rounded(raw: RawGame)
    requires
        normalized(raw) is Some,
    ensures
        raw.total_rating is None ==> normalized(raw)->0.total_rating == 0,
        raw.total_rating is Some ==> normalized(raw)->0.total_rating == rounded(
            raw.total_rating->0,
        ),
        raw.total_rating is Some && raw.total_rating->0 <= HUNDRED_BITS
            ==> normalized(raw)->0.total_rating <= 100,
{
    if raw.total_rating is Some && raw.total_rating->0 <= HUNDRED_BITS {
        rounded_percent_stays_in_range(raw.total_rating->0);
    }
}

/// A missing or empty genre list gives an empty genre text.
pub proof fn no_genres_give_empty_text(raw: RawGame)
    requires
        raw.genres is None || raw.genres->0@.len() == 0,
        normalized(raw) is Some,
    ensures
        normalized(raw)->0.genres == Seq::<char>::empty(),
{
}

/// Genres `RPG` and `Action` are shown as `RPG, Action`.
pub proof fn two_genres_are_comma_joined(raw: RawGame)
    requires
        raw.genres is Some,
        views(raw.genres->0@) == seq!["RPG"@, "Action"@],
        normalized(raw) is Some,
    ensures
        normalized(raw)->0.genres == "RPG, Action"@,
{
    reveal_strlit("RPG");
    reveal_strlit("Action");
    reveal_strlit(", ");
    reveal_strlit("RPG, Action");
    let items = seq!["RPG"@, "Action"@];
    assert(items.drop_last() =~= seq!["RPG"@]);
    assert(joined(seq!["RPG"@], ", "@) == "RPG"@);
    assert(joined(items, ", "@) == "RPG"@ + ", "@ + "Action"@);
    assert(joined(items, ", "@) =~= "RPG, Action"@);
}

/// A record without a release time gets an empty date.
pub proof fn missing_release_date_is_empty(raw: RawGame)
    requires
        raw.first_release_date is None,
    ensures
        normalized(raw) is Some,
        normalized(raw)->0.first_release_date == Seq::<char>::empty(),
{
}

/// Normalizing depends on the record alone: two results for one record agree.
pub proof fn normalizing_is_deterministic(raw: RawGame, a: GameModel, b: GameModel)
    requires
        normalized(raw) == Some(a),
        normalized(raw) == Some(b),
    ensures
        a == b,
{
}

} // verus!

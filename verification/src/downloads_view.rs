//! What the downloads view shows of the install queue.

use vstd::prelude::*;

verus! {

/// A game in the install queue, with its download progress.
pub struct QueuedDownload {
    pub slug: String,
    pub downloaded_bytes: usize,
    pub total_bytes: usize,
}

/// The known games as (slug, name) pairs of character sequences.
pub open spec fn games_view(games: Seq<(String, String)>) -> Seq<(Seq<char>, Seq<char>)> {
    games.map_values(|g: (String, String)| (g.0@, g.1@))
}

/// The name of the first known game whose slug is `slug`, if any.
pub open spec fn game_name(games: Seq<(Seq<char>, Seq<char>)>, slug: Seq<char>) -> Option<
    Seq<char>,
>
    decreases games.len(),
{
    if games.len() == 0 {
        None
    } else if games[0].0 == slug {
        Some(games[0].1)
    } else {
        game_name(games.drop_first(), slug)
    }
}

/// The name found for a slug belongs to a known game whose slug equals it
/// exactly, the first such; a slug equal to no known slug finds nothing.
pub proof fn lemma_game_name_is_exact_match(games: Seq<(Seq<char>, Seq<char>)>, slug: Seq<char>)
    ensures
        game_name(games, slug) is None <==> forall|j: int|
            0 <= j < games.len() ==> (#[trigger] games[j]).0 != slug,
        game_name(games, slug) matches Some(n) ==> exists|j: int|
            0 <= j < games.len() && (#[trigger] games[j]).0 == slug && games[j].1 == n && forall|
                k: int,
            | 0 <= k < j ==> (#[trigger] games[k]).0 != slug,
    decreases games.len(),
{
    if games.len() > 0 {
        let rest = games.drop_first();
        lemma_game_name_is_exact_match(rest, slug);
        if games[0].0 == slug {
            assert(games[0].0 == slug && games[0].1 == games[0].1);
        } else {
            assert forall|j: int| 0 < j < games.len() implies (#[trigger] games[j]) == rest[j - 1] by {
            }
            if game_name(rest, slug) is None {
                assert forall|j: int| 0 <= j < games.len() implies (#[trigger] games[j]).0 != slug by {
                    if j > 0 {
                        assert(games[j] == rest[j - 1]);
                    }
                }
            } else {
                let n = game_name(rest, slug)->Some_0;
                let j0 = choose|j: int|
                    0 <= j < rest.len() && (#[trigger] rest[j]).0 == slug && rest[j].1 == n
                        && forall|k: int| 0 <= k < j ==> (#[trigger] rest[k]).0 != slug;
                assert(games[j0 + 1] == rest[j0]);
                assert forall|k: int| 0 <= k < j0 + 1 implies (#[trigger] games[k]).0 != slug by {
                    if k > 0 {
                        assert(games[k] == rest[k - 1]);
                    }
                }
                assert(rest[j0].0 == slug);
                assert(exists|j: int| 0 <= j < rest.len() && (#[trigger] rest[j]).0 == slug);
            }
        }
    }
}

/// The index of the first known game whose slug is `slug`.
fn find_game(games: &Vec<(String, String)>, slug: &String) -> (found: Option<usize>)
    ensures
        match found {
            Some(j) => j < games@.len() && game_name(games_view(games@), slug@) == Some(
                games@[j as int].1@,
            ),
            None => game_name(games_view(games@), slug@) is None,
        },
{
    let ghost all = games_view(games@);
    let mut i: usize = 0;
    assert(all.skip(0) =~= all);
    while i < games.len()
        invariant
            i <= games@.len(),
            all == games_view(games@),
            game_name(all, slug@) == game_name(all.skip(i as int), slug@),
        decreases games@.len() - i,
    {
        let ghost rest = all.skip(i as int);
        assert(rest[0] == (games@[i as int].0@, games@[i as int].1@));
        assert(rest.drop_first() =~= all.skip(i + 1));
        if games[i].0 == *slug {
            return Some(i);
        }
        i = i + 1;
    }
    assert(all.skip(i as int).len() == 0);
    None
}

/// The names the downloads view lists for the install queue, in queue order:
/// each queued slug's game name, or `None` when some queued slug names no
/// known game.
pub fn queued_download_names(
    install_queue: &Vec<QueuedDownload>,
    games: &Vec<(String, String)>,
) -> (names: Option<Vec<String>>)
    ensures
        names is None <==> exists|i: int|
            0 <= i < install_queue@.len() && (#[trigger] game_name(
                games_view(games@),
                install_queue@[i].slug@,
            )) is None,
        names matches Some(n) ==> {
            &&& n@.len() == install_queue@.len()
            &&& forall|i: int|
                0 <= i < n@.len() ==> game_name(games_view(games@), install_queue@[i].slug@)
                    == Some((#[trigger] n@[i])@)
        },
{
    let mut names: Vec<String> = Vec::new();
    let mut i: usize = 0;
    while i < install_queue.len()
        invariant
            i <= install_queue@.len(),
            names@.len() == i,
            forall|k: int|
                0 <= k < i ==> game_name(games_view(games@), install_queue@[k].slug@) == Some(
                    (#[trigger] names@[k])@,
                ),
        decreases install_queue@.len() - i,
    {
        match find_game(games, &install_queue[i].slug) {
            Some(j) => {
                names.push(games[j].1.clone());
            },
            None => {
                return None;
            },
        }
        i = i + 1;
    }
    assert forall|k: int| 0 <= k < install_queue@.len() implies (#[trigger] game_name(
        games_view(games@),
        install_queue@[k].slug@,
    )) is Some by {
        assert(game_name(games_view(games@), install_queue@[k].slug@) == Some(names@[k]@));
    }
    Some(names)
}

} // verus!

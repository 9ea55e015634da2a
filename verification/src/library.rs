use vstd::prelude::*;

use crate::models::AlbumRecord;

verus! {

/// The mark put before the entry of the album (or of "All Photos") being shown.
pub open spec fn selected_mark() -> Seq<char> {
    seq!['★', ' ']
}

/// The menu entry of an album: its name, marked with `★ ` when it is the album shown.
pub open spec fn spec_album_label(name: Seq<char>, is_selected: bool) -> Seq<char> {
    if is_selected {
        selected_mark() + name
    } else {
        name
    }
}

/// Whether an album is the one the gallery shows.
pub open spec fn spec_is_selected(album: AlbumRecord, selected_album: Option<i64>) -> bool {
    selected_album == Some(album.id)
}

/// The "Library" menu entry of an album.
pub fn album_menu_label(album: &AlbumRecord, selected_album: Option<i64>) -> (r: String)
    ensures
        r@ == spec_album_label(album.name@, spec_is_selected(*album, selected_album)),
{
    let is_selected = match selected_album {
        Some(id) => id == album.id,
        None => false,
    };
    if is_selected {
        let mark = String::from_str("★ ");
        proof {
            reveal_strlit("★ ");
        }
        assert(mark@ =~= selected_mark());
        mark.concat(album.name.as_str())
    } else {
        album.name.clone()
    }
}

/// The "All Photos" menu entry: marked with a star while no album is selected, with a
/// picture sign otherwise.
pub fn all_photos_label(selected_album: Option<i64>) -> (r: &'static str)
    ensures
        r@ == (if selected_album.is_none() {
            selected_mark() + seq!['A', 'l', 'l', ' ', 'P', 'h', 'o', 't', 'o', 's']
        } else {
            seq!['🖼', ' ', 'A', 'l', 'l', ' ', 'P', 'h', 'o', 't', 'o', 's']
        }),
{
    proof {
        reveal_strlit("★ All Photos");
        reveal_strlit("🖼 All Photos");
    }
    if selected_album.is_none() {
        let r = "★ All Photos";
        assert(r@ =~= selected_mark() + seq!['A', 'l', 'l', ' ', 'P', 'h', 'o', 't', 'o', 's']);
        r
    } else {
        let r = "🖼 All Photos";
        assert(r@ =~= seq!['🖼', ' ', 'A', 'l', 'l', ' ', 'P', 'h', 'o', 't', 'o', 's']);
        r
    }
}


/// Exactly the album being shown is starred: its entry is `★ ` followed by its name when the
/// selected album id is that album's id, and its bare name for any other selection (another
/// album, or none).
pub proof fn lemma_star_marks_the_selected_album(album: AlbumRecord, selected_album: Option<i64>)
    ensures
        selected_album == Some(album.id) ==> spec_album_label(
            album.name@,
            spec_is_selected(album, selected_album),
        ) == seq!['★', ' '] + album.name@,
        selected_album != Some(album.id) ==> spec_album_label(
            album.name@,
            spec_is_selected(album, selected_album),
        ) == album.name@,
{
}

} // verus!

//! The songs offered in the song menu, and their tempo.
use vstd::prelude::*;

verus! {

/// A song of the menu.
#[derive(Clone, Copy, Debug, PartialEq, Eq, Structural)]
pub enum Song {
    /// 但愿人长久
    DanYuanRenChangJiu,
    /// 蝶恋
    DieLian,
    /// 梁祝
    LiangZhu,
    /// 逍遥叹-胡歌
    XiaoYaoTan,
}

/// The menu label of a song.
pub open spec fn title_of(song: Song) -> Seq<char> {
    match song {
        Song::DanYuanRenChangJiu => "但愿人长久"@,
        Song::DieLian => "蝶恋"@,
        Song::LiangZhu => "梁祝"@,
        Song::XiaoYaoTan => "逍遥叹-胡歌"@,
    }
}

/// The tempo of a song, in beats per minute.
pub open spec fn bpm_of(song: Song) -> u32 {
    match song {
        Song::DanYuanRenChangJiu => 88,
        Song::DieLian => 80,
        Song::LiangZhu => 56,
        Song::XiaoYaoTan => 68,
    }
}

/// The song that a menu label names, if any.
pub open spec fn song_named(name: Seq<char>) -> Option<Song> {
    if name == title_of(Song::DanYuanRenChangJiu) {
        Some(Song::DanYuanRenChangJiu)
    } else if name == title_of(Song::DieLian) {
        Some(Song::DieLian)
    } else if name == title_of(Song::LiangZhu) {
        Some(Song::LiangZhu)
    } else if name == title_of(Song::XiaoYaoTan) {
        Some(Song::XiaoYaoTan)
    } else {
        None
    }
}

impl Song {
    /// The menu label of this song.
    pub fn title(&self) -> (r: String)
        ensures
            r@ == title_of(*self),
    {
        match self {
            Song::DanYuanRenChangJiu => String::from_str("但愿人长久"),
            Song::DieLian => String::from_str("蝶恋"),
            Song::LiangZhu => String::from_str("梁祝"),
            Song::XiaoYaoTan => String::from_str("逍遥叹-胡歌"),
        }
    }

    /// The tempo of this song, in beats per minute.
    pub fn bpm(&self) -> (r: u32)
        ensures
            r == bpm_of(*self),
    {
        match self {
            Song::DanYuanRenChangJiu => 88,
            Song::DieLian => 80,
            Song::LiangZhu => 56,
            Song::XiaoYaoTan => 68,
        }
    }
}

/// Finds the song whose menu label is `name`; any other label (such as the
/// menu's placeholder entry) names no song.
pub fn select_song(name: &str) -> (r: Option<Song>)
    ensures
        r == song_named(name@),
{
    let name = String::from_str(name);
    if name == Song::DanYuanRenChangJiu.title() {
        Some(Song::DanYuanRenChangJiu)
    } else if name == Song::DieLian.title() {
        Some(Song::DieLian)
    } else if name == Song::LiangZhu.title() {
        Some(Song::LiangZhu)
    } else if name == Song::XiaoYaoTan.title() {
        Some(Song::XiaoYaoTan)
    } else {
        None
    }
}

/// The labels of the songs are pairwise different, so each label selects the
/// song that carries it.
pub proof fn lemma_title_selects_song(song: Song)
    ensures
        song_named(title_of(song)) == Some(song),
{
    reveal_strlit("但愿人长久");
    reveal_strlit("蝶恋");
    reveal_strlit("梁祝");
    reveal_strlit("逍遥叹-胡歌");
    assert("但愿人长久"@.len() == 5);
    assert("蝶恋"@.len() == 2 && "梁祝"@.len() == 2);
    assert("逍遥叹-胡歌"@.len() == 6);
    assert("蝶恋"@[0] != "梁祝"@[0]);
}

} // verus!

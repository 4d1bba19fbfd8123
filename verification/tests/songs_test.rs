use piano_tabs::songs::{select_song, Song};

#[test]
fn select_song_finds_each_title() {
    assert_eq!(select_song("但愿人长久"), Some(Song::DanYuanRenChangJiu));
    assert_eq!(select_song("蝶恋"), Some(Song::DieLian));
    assert_eq!(select_song("梁祝"), Some(Song::LiangZhu));
    assert_eq!(select_song("逍遥叹-胡歌"), Some(Song::XiaoYaoTan));
}

#[test]
fn select_song_rejects_other_labels() {
    assert_eq!(select_song("请选择"), None);
    assert_eq!(select_song(""), None);
    assert_eq!(select_song("梁祝 "), None);
    assert_eq!(select_song("逍遥叹"), None);
}

#[test]
fn song_tempos() {
    assert_eq!(Song::DanYuanRenChangJiu.bpm(), 88);
    assert_eq!(Song::DieLian.bpm(), 80);
    assert_eq!(Song::LiangZhu.bpm(), 56);
    assert_eq!(Song::XiaoYaoTan.bpm(), 68);
}

#[test]
fn title_selects_its_song() {
    for song in [Song::DanYuanRenChangJiu, Song::DieLian, Song::LiangZhu, Song::XiaoYaoTan] {
        assert_eq!(select_song(song.title().as_str()), Some(song));
    }
    assert_eq!(Song::LiangZhu.title(), "梁祝");
}

use processforlinux::classify::WindowTitle;
use processforlinux::enrich::{extend_info_lowered, get_extend_info};
use processforlinux::probe::classify;

const TABLE: [(&str, &str); 34] = [
    ("code", "Code"),
    ("jetbrains-webstorm", "WebStorm"),
    ("telegram", "Telegram"),
    ("wechat", "WeChat"),
    ("discord", "Discord"),
    ("thunderbird", "Mail"),
    ("kmail", "Mail"),
    ("qqmusic", "QQ音乐"),
    ("qq", "QQ"),
    ("google-chrome", "Chrome"),
    ("chromium", "Chrome"),
    ("thorium", "Chrome"),
    ("firefox", "Firefox"),
    ("yesplaymusic", "NetEaseMusic"),
    ("music", "NetEaseMusic"),
    ("spotify", "Spotify"),
    ("yakuake", "iTerm2"),
    ("konsole", "iTerm2"),
    ("gnome-terminal", "iTerm2"),
    ("kitty", "iTerm2"),
    ("alacritty", "iTerm2"),
    ("typora", "Typora"),
    ("slack", "Slack"),
    ("jetbrains-idea", "IDEA"),
    ("jetbrains-clion", "CLion"),
    ("jetbrains-pycharm", "PyCharm"),
    ("jetbrains-goland", "GoLand"),
    ("jetbrains-studio", "Android Studio"),
    ("jetbrains-rustrover", "RustRover"),
    ("sublime_text", "Sublime Text"),
    ("atom", "Atom"),
    ("libreoffice", "LibreOffice"),
    ("vlc", "VLC"),
    ("obs", "OBS"),
];

#[test]
fn every_known_class_maps_to_its_application() {
    for (class, name) in TABLE {
        assert_eq!(WindowTitle::from_string(class).name(), name, "class {}", class);
        assert_eq!(WindowTitle::from_lowercase(class).name(), name, "class {}", class);
        assert_eq!(classify(class), name, "class {}", class);
    }
}

#[test]
fn unknown_class_is_empty() {
    assert_eq!(WindowTitle::from_string("xterm-256color-thing"), WindowTitle::Unknown);
    assert_eq!(classify("xeyes"), "");
    assert_eq!(classify(""), "");
}

#[test]
fn classify_ignores_case_and_matches_substrings() {
    let plain = classify("jetbrains-rustrover");
    assert_eq!(plain, "RustRover");
    assert_eq!(classify("JetBrains-RustRover"), plain);
    assert_eq!(classify("jetbrains-rustrover-beta"), plain);
    assert_eq!(WindowTitle::from_string("Google-chrome"), WindowTitle::Chrome);
}

#[test]
fn lowercase_lookup_does_not_fold_case() {
    assert_eq!(WindowTitle::from_lowercase("FIREFOX"), WindowTitle::Unknown);
    assert_eq!(WindowTitle::from_string("FIREFOX"), WindowTitle::Firefox);
}

#[test]
fn exact_key_wins_over_earlier_partial_match() {
    assert_eq!(WindowTitle::from_string("qq"), WindowTitle::QQ);
    assert_eq!(WindowTitle::from_string("qqmusic"), WindowTitle::QQMusic);
    assert_eq!(WindowTitle::from_string("music"), WindowTitle::NetEaseMusic);
}

#[test]
fn unknown_title_is_named_none() {
    assert_eq!(WindowTitle::Unknown.name(), "None");
}

#[test]
fn extend_info_follows_application_name() {
    assert_eq!(
        get_extend_info("Chrome"),
        "Lighthouse跑分专用浏览器，只要关掉插件，我的网站就天下第一"
    );
    assert_eq!(get_extend_info("QQ音乐"), "内置浏览器比微信还离谱，上古前端技术展览馆");
    assert_eq!(
        get_extend_info("NetEaseMusic"),
        "修复IE兼容性问题时的专用BGM播放器，评论区里都是同道中人"
    );
    assert_eq!(get_extend_info("Android Studio"), "Gradle syncing... @OptIn(Experimental::class)");
    assert_eq!(get_extend_info("IDEA"), "要么享受着kt的爽，要么就是面向Spring开发中");
    assert_eq!(get_extend_info(""), "");
    assert_eq!(get_extend_info("Mail"), "");
}

#[test]
fn extend_info_lowered_takes_first_keyword() {
    assert_eq!(
        extend_info_lowered("qqmusic"),
        "当我的Babel编译卡住时，唯一能抚慰我心灵的东西"
    );
    assert_eq!(extend_info_lowered("CHROME"), "");
}

//! Mapping from the class string that a window system reports for a window to
//! the canonical name of the application that owns it.

use vstd::prelude::*;

use crate::text::{chars_of, contains, has, occurs_at, same_chars};

verus! {

/// The applications that the classifier knows, and `Unknown` for any other.
#[derive(PartialEq, Eq, Structural, Clone, Copy, Debug)]
pub enum WindowTitle {
    Code,
    WebStorm,
    Telegram,
    WeChat,
    Discord,
    Mail,
    QQ,
    Chrome,
    QQMusic,
    NetEaseMusic,
    ITerm2,
    Typora,
    Firefox,
    Spotify,
    Slack,
    Idea,
    PyCharm,
    GoLand,
    CLion,
    AndroidStudio,
    RustRover,
    SublimeText,
    Atom,
    LibreOffice,
    VLC,
    OBS,
    Unknown,
}

/// The known window classes, each with the application it stands for, in the
/// order in which a partial match is looked for.
pub open spec fn class_table() -> Seq<(Seq<char>, WindowTitle)> {
    seq![
        ("code"@, WindowTitle::Code),
        ("jetbrains-webstorm"@, WindowTitle::WebStorm),
        ("telegram"@, WindowTitle::Telegram),
        ("wechat"@, WindowTitle::WeChat),
        ("discord"@, WindowTitle::Discord),
        ("thunderbird"@, WindowTitle::Mail),
        ("kmail"@, WindowTitle::Mail),
        ("qqmusic"@, WindowTitle::QQMusic),
        ("qq"@, WindowTitle::QQ),
        ("google-chrome"@, WindowTitle::Chrome),
        ("chromium"@, WindowTitle::Chrome),
        ("thorium"@, WindowTitle::Chrome),
        ("firefox"@, WindowTitle::Firefox),
        ("yesplaymusic"@, WindowTitle::NetEaseMusic),
        ("music"@, WindowTitle::NetEaseMusic),
        ("spotify"@, WindowTitle::Spotify),
        ("yakuake"@, WindowTitle::ITerm2),
        ("konsole"@, WindowTitle::ITerm2),
        ("gnome-terminal"@, WindowTitle::ITerm2),
        ("kitty"@, WindowTitle::ITerm2),
        ("alacritty"@, WindowTitle::ITerm2),
        ("typora"@, WindowTitle::Typora),
        ("slack"@, WindowTitle::Slack),
        ("jetbrains-idea"@, WindowTitle::Idea),
        ("jetbrains-clion"@, WindowTitle::CLion),
        ("jetbrains-pycharm"@, WindowTitle::PyCharm),
        ("jetbrains-goland"@, WindowTitle::GoLand),
        ("jetbrains-studio"@, WindowTitle::AndroidStudio),
        ("jetbrains-rustrover"@, WindowTitle::RustRover),
        ("sublime_text"@, WindowTitle::SublimeText),
        ("atom"@, WindowTitle::Atom),
        ("libreoffice"@, WindowTitle::LibreOffice),
        ("vlc"@, WindowTitle::VLC),
        ("obs"@, WindowTitle::OBS),
    ]
}

/// The application of the first entry from `i` on whose key is exactly `s`.
pub open spec fn exact_from(t: Seq<(Seq<char>, WindowTitle)>, s: Seq<char>, i: int) -> Option<
    WindowTitle,
>
    decreases t.len() - i,
{
    if i < 0 || i >= t.len() {
        None
    } else if t[i].0 == s {
        Some(t[i].1)
    } else {
        exact_from(t, s, i + 1)
    }
}

/// The application of the first entry from `i` on whose key occurs in `s`.
pub open spec fn partial_from(t: Seq<(Seq<char>, WindowTitle)>, s: Seq<char>, i: int) -> Option<
    WindowTitle,
>
    decreases t.len() - i,
{
    if i < 0 || i >= t.len() {
        None
    } else if contains(s, t[i].0) {
        Some(t[i].1)
    } else {
        partial_from(t, s, i + 1)
    }
}

/// The application for an already lower-cased window class: the entry whose key
/// is the class itself, else the first entry whose key occurs in it, else `Unknown`.
pub open spec fn title_of(s: Seq<char>) -> WindowTitle {
    match exact_from(class_table(), s, 0) {
        Some(w) => w,
        None => match partial_from(class_table(), s, 0) {
            Some(w) => w,
            None => WindowTitle::Unknown,
        },
    }
}

proof fn lemma_no_key_occurs(t: Seq<(Seq<char>, WindowTitle)>, s: Seq<char>, k: int)
    requires
        0 <= k,
        forall|j: int| k <= j < t.len() ==> !contains(s, #[trigger] t[j].0),
    ensures
        exact_from(t, s, k) is None,
        partial_from(t, s, k) is None,
    decreases t.len() - k,
{
    if k < t.len() {
        if t[k].0 == s {
            assert(s.subrange(0, s.len() as int) =~= s);
            assert(occurs_at(s, t[k].0, 0));
        }
        lemma_no_key_occurs(t, s, k + 1);
    }
}

#[verifier::rlimit(100)]
proof fn lemma_known_classes_0_10()
    ensures
        forall|i: int| 0 <= i < 10 ==> title_of(#[trigger] class_table()[i].0) == class_table()[i].1,
{
    reveal_strlit("code");
    reveal_strlit("jetbrains-webstorm");
    reveal_strlit("telegram");
    reveal_strlit("wechat");
    reveal_strlit("discord");
    reveal_strlit("thunderbird");
    reveal_strlit("kmail");
    reveal_strlit("qqmusic");
    reveal_strlit("qq");
    reveal_strlit("google-chrome");
    let t = class_table();
    assert("code"@.len() == 4 && "code"@[0] == 'c' && "code"@[1] == 'o');
    assert("jetbrains-webstorm"@.len() == 18 && "jetbrains-webstorm"@[0] == 'j' && "jetbrains-webstorm"@[1] == 'e');
    assert("telegram"@.len() == 8 && "telegram"@[0] == 't' && "telegram"@[1] == 'e');
    assert("wechat"@.len() == 6 && "wechat"@[0] == 'w' && "wechat"@[1] == 'e');
    assert("discord"@.len() == 7 && "discord"@[0] == 'd' && "discord"@[1] == 'i');
    assert("thunderbird"@.len() == 11 && "thunderbird"@[0] == 't' && "thunderbird"@[1] == 'h');
    assert("kmail"@.len() == 5 && "kmail"@[0] == 'k' && "kmail"@[1] == 'm');
    assert("qqmusic"@.len() == 7 && "qqmusic"@[0] == 'q' && "qqmusic"@[1] == 'q');
    assert("qq"@.len() == 2 && "qq"@[0] == 'q' && "qq"@[1] == 'q');
    assert("google-chrome"@.len() == 13 && "google-chrome"@[0] == 'g' && "google-chrome"@[1] == 'o');
    assert(title_of(t[0].0) == t[0].1) by {
        reveal_with_fuel(exact_from, 1);
    }
    assert(title_of(t[1].0) == t[1].1) by {
        reveal_with_fuel(exact_from, 2);
    }
    assert(title_of(t[2].0) == t[2].1) by {
        reveal_with_fuel(exact_from, 3);
    }
    assert(title_of(t[3].0) == t[3].1) by {
        reveal_with_fuel(exact_from, 4);
    }
    assert(title_of(t[4].0) == t[4].1) by {
        reveal_with_fuel(exact_from, 5);
    }
    assert(title_of(t[5].0) == t[5].1) by {
        reveal_with_fuel(exact_from, 6);
    }
    assert(title_of(t[6].0) == t[6].1) by {
        reveal_with_fuel(exact_from, 7);
    }
    assert(title_of(t[7].0) == t[7].1) by {
        reveal_with_fuel(exact_from, 8);
    }
    assert(title_of(t[8].0) == t[8].1) by {
        reveal_with_fuel(exact_from, 9);
    }
    assert(title_of(t[9].0) == t[9].1) by {
        reveal_with_fuel(exact_from, 10);
    }
}

#[verifier::rlimit(100)]
proof fn lemma_known_classes_10_18()
    ensures
        forall|i: int| 10 <= i < 18 ==> title_of(#[trigger] class_table()[i].0) == class_table()[i].1,
{
    reveal_strlit("code");
    reveal_strlit("jetbrains-webstorm");
    reveal_strlit("telegram");
    reveal_strlit("wechat");
    reveal_strlit("discord");
    reveal_strlit("thunderbird");
    reveal_strlit("kmail");
    reveal_strlit("qqmusic");
    reveal_strlit("qq");
    reveal_strlit("google-chrome");
    reveal_strlit("chromium");
    reveal_strlit("thorium");
    reveal_strlit("firefox");
    reveal_strlit("yesplaymusic");
    reveal_strlit("music");
    reveal_strlit("spotify");
    reveal_strlit("yakuake");
    reveal_strlit("konsole");
    let t = class_table();
    assert("code"@.len() == 4 && "code"@[0] == 'c' && "code"@[1] == 'o');
    assert("jetbrains-webstorm"@.len() == 18 && "jetbrains-webstorm"@[0] == 'j' && "jetbrains-webstorm"@[1] == 'e');
    assert("telegram"@.len() == 8 && "telegram"@[0] == 't' && "telegram"@[1] == 'e');
    assert("wechat"@.len() == 6 && "wechat"@[0] == 'w' && "wechat"@[1] == 'e');
    assert("discord"@.len() == 7 && "discord"@[0] == 'd' && "discord"@[1] == 'i');
    assert("thunderbird"@.len() == 11 && "thunderbird"@[0] == 't' && "thunderbird"@[1] == 'h');
    assert("kmail"@.len() == 5 && "kmail"@[0] == 'k' && "kmail"@[1] == 'm');
    assert("qqmusic"@.len() == 7 && "qqmusic"@[0] == 'q' && "qqmusic"@[1] == 'q');
    assert("qq"@.len() == 2 && "qq"@[0] == 'q' && "qq"@[1] == 'q');
    assert("google-chrome"@.len() == 13 && "google-chrome"@[0] == 'g' && "google-chrome"@[1] == 'o');
    assert("chromium"@.len() == 8 && "chromium"@[0] == 'c' && "chromium"@[1] == 'h');
    assert("thorium"@.len() == 7 && "thorium"@[0] == 't' && "thorium"@[1] == 'h');
    assert("firefox"@.len() == 7 && "firefox"@[0] == 'f' && "firefox"@[1] == 'i');
    assert("yesplaymusic"@.len() == 12 && "yesplaymusic"@[0] == 'y' && "yesplaymusic"@[1] == 'e');
    assert("music"@.len() == 5 && "music"@[0] == 'm' && "music"@[1] == 'u');
    assert("spotify"@.len() == 7 && "spotify"@[0] == 's' && "spotify"@[1] == 'p');
    assert("yakuake"@.len() == 7 && "yakuake"@[0] == 'y' && "yakuake"@[1] == 'a');
    assert("konsole"@.len() == 7 && "konsole"@[0] == 'k' && "konsole"@[1] == 'o');
    assert(title_of(t[10].0) == t[10].1) by {
        reveal_with_fuel(exact_from, 11);
    }
    assert(title_of(t[11].0) == t[11].1) by {
        reveal_with_fuel(exact_from, 12);
    }
    assert(title_of(t[12].0) == t[12].1) by {
        reveal_with_fuel(exact_from, 13);
    }
    assert(title_of(t[13].0) == t[13].1) by {
        reveal_with_fuel(exact_from, 14);
    }
    assert(title_of(t[14].0) == t[14].1) by {
        reveal_with_fuel(exact_from, 15);
    }
    assert(title_of(t[15].0) == t[15].1) by {
        reveal_with_fuel(exact_from, 16);
    }
    assert(title_of(t[16].0) == t[16].1) by {
        reveal_with_fuel(exact_from, 17);
    }
    assert(title_of(t[17].0) == t[17].1) by {
        reveal_with_fuel(exact_from, 18);
    }
}

#[verifier::rlimit(100)]
proof fn lemma_known_classes_18_24()
    ensures
        forall|i: int| 18 <= i < 24 ==> title_of(#[trigger] class_table()[i].0) == class_table()[i].1,
{
    reveal_strlit("code");
    reveal_strlit("jetbrains-webstorm");
    reveal_strlit("telegram");
    reveal_strlit("wechat");
    reveal_strlit("discord");
    reveal_strlit("thunderbird");
    reveal_strlit("kmail");
    reveal_strlit("qqmusic");
    reveal_strlit("qq");
    reveal_strlit("google-chrome");
    reveal_strlit("chromium");
    reveal_strlit("thorium");
    reveal_strlit("firefox");
    reveal_strlit("yesplaymusic");
    reveal_strlit("music");
    reveal_strlit("spotify");
    reveal_strlit("yakuake");
    reveal_strlit("konsole");
    reveal_strlit("gnome-terminal");
    reveal_strlit("kitty");
    reveal_strlit("alacritty");
    reveal_strlit("typora");
    reveal_strlit("slack");
    reveal_strlit("jetbrains-idea");
    let t = class_table();
    assert("code"@.len() == 4 && "code"@[0] == 'c' && "code"@[1] == 'o');
    assert("jetbrains-webstorm"@.len() == 18 && "jetbrains-webstorm"@[0] == 'j' && "jetbrains-webstorm"@[1] == 'e');
    assert("telegram"@.len() == 8 && "telegram"@[0] == 't' && "telegram"@[1] == 'e');
    assert("wechat"@.len() == 6 && "wechat"@[0] == 'w' && "wechat"@[1] == 'e');
    assert("discord"@.len() == 7 && "discord"@[0] == 'd' && "discord"@[1] == 'i');
    assert("thunderbird"@.len() == 11 && "thunderbird"@[0] == 't' && "thunderbird"@[1] == 'h');
    assert("kmail"@.len() == 5 && "kmail"@[0] == 'k' && "kmail"@[1] == 'm');
    assert("qqmusic"@.len() == 7 && "qqmusic"@[0] == 'q' && "qqmusic"@[1] == 'q');
    assert("qq"@.len() == 2 && "qq"@[0] == 'q' && "qq"@[1] == 'q');
    assert("google-chrome"@.len() == 13 && "google-chrome"@[0] == 'g' && "google-chrome"@[1] == 'o');
    assert("chromium"@.len() == 8 && "chromium"@[0] == 'c' && "chromium"@[1] == 'h');
    assert("thorium"@.len() == 7 && "thorium"@[0] == 't' && "thorium"@[1] == 'h');
    assert("firefox"@.len() == 7 && "firefox"@[0] == 'f' && "firefox"@[1] == 'i');
    assert("yesplaymusic"@.len() == 12 && "yesplaymusic"@[0] == 'y' && "yesplaymusic"@[1] == 'e');
    assert("music"@.len() == 5 && "music"@[0] == 'm' && "music"@[1] == 'u');
    assert("spotify"@.len() == 7 && "spotify"@[0] == 's' && "spotify"@[1] == 'p');
    assert("yakuake"@.len() == 7 && "yakuake"@[0] == 'y' && "yakuake"@[1] == 'a');
    assert("konsole"@.len() == 7 && "konsole"@[0] == 'k' && "konsole"@[1] == 'o');
    assert("gnome-terminal"@.len() == 14 && "gnome-terminal"@[0] == 'g' && "gnome-terminal"@[1] == 'n');
    assert("kitty"@.len() == 5 && "kitty"@[0] == 'k' && "kitty"@[1] == 'i');
    assert("alacritty"@.len() == 9 && "alacritty"@[0] == 'a' && "alacritty"@[1] == 'l');
    assert("typora"@.len() == 6 && "typora"@[0] == 't' && "typora"@[1] == 'y');
    assert("slack"@.len() == 5 && "slack"@[0] == 's' && "slack"@[1] == 'l');
    assert("jetbrains-idea"@.len() == 14 && "jetbrains-idea"@[0] == 'j' && "jetbrains-idea"@[1] == 'e');
    assert(title_of(t[18].0) == t[18].1) by {
        reveal_with_fuel(exact_from, 19);
    }
    assert(title_of(t[19].0) == t[19].1) by {
        reveal_with_fuel(exact_from, 20);
    }
    assert(title_of(t[20].0) == t[20].1) by {
        reveal_with_fuel(exact_from, 21);
    }
    assert(title_of(t[21].0) == t[21].1) by {
        reveal_with_fuel(exact_from, 22);
    }
    assert(title_of(t[22].0) == t[22].1) by {
        reveal_with_fuel(exact_from, 23);
    }
    assert(title_of(t[23].0) == t[23].1) by {
        reveal_with_fuel(exact_from, 24);
    }
}

#[verifier::rlimit(100)]
proof fn lemma_known_classes_24_29()
    ensures
        forall|i: int| 24 <= i < 29 ==> title_of(#[trigger] class_table()[i].0) == class_table()[i].1,
{
    reveal_strlit("code");
    reveal_strlit("jetbrains-webstorm");
    reveal_strlit("telegram");
    reveal_strlit("wechat");
    reveal_strlit("discord");
    reveal_strlit("thunderbird");
    reveal_strlit("kmail");
    reveal_strlit("qqmusic");
    reveal_strlit("qq");
    reveal_strlit("google-chrome");
    reveal_strlit("chromium");
    reveal_strlit("thorium");
    reveal_strlit("firefox");
    reveal_strlit("yesplaymusic");
    reveal_strlit("music");
    reveal_strlit("spotify");
    reveal_strlit("yakuake");
    reveal_strlit("konsole");
    reveal_strlit("gnome-terminal");
    reveal_strlit("kitty");
    reveal_strlit("alacritty");
    reveal_strlit("typora");
    reveal_strlit("slack");
    reveal_strlit("jetbrains-idea");
    reveal_strlit("jetbrains-clion");
    reveal_strlit("jetbrains-pycharm");
    reveal_strlit("jetbrains-goland");
    reveal_strlit("jetbrains-studio");
    reveal_strlit("jetbrains-rustrover");
    let t = class_table();
    assert("code"@.len() == 4 && "code"@[0] == 'c' && "code"@[1] == 'o');
    assert("jetbrains-webstorm"@.len() == 18 && "jetbrains-webstorm"@[0] == 'j' && "jetbrains-webstorm"@[1] == 'e');
    assert("telegram"@.len() == 8 && "telegram"@[0] == 't' && "telegram"@[1] == 'e');
    assert("wechat"@.len() == 6 && "wechat"@[0] == 'w' && "wechat"@[1] == 'e');
    assert("discord"@.len() == 7 && "discord"@[0] == 'd' && "discord"@[1] == 'i');
    assert("thunderbird"@.len() == 11 && "thunderbird"@[0] == 't' && "thunderbird"@[1] == 'h');
    assert("kmail"@.len() == 5 && "kmail"@[0] == 'k' && "kmail"@[1] == 'm');
    assert("qqmusic"@.len() == 7 && "qqmusic"@[0] == 'q' && "qqmusic"@[1] == 'q');
    assert("qq"@.len() == 2 && "qq"@[0] == 'q' && "qq"@[1] == 'q');
    assert("google-chrome"@.len() == 13 && "google-chrome"@[0] == 'g' && "google-chrome"@[1] == 'o');
    assert("chromium"@.len() == 8 && "chromium"@[0] == 'c' && "chromium"@[1] == 'h');
    assert("thorium"@.len() == 7 && "thorium"@[0] == 't' && "thorium"@[1] == 'h');
    assert("firefox"@.len() == 7 && "firefox"@[0] == 'f' && "firefox"@[1] == 'i');
    assert("yesplaymusic"@.len() == 12 && "yesplaymusic"@[0] == 'y' && "yesplaymusic"@[1] == 'e');
    assert("music"@.len() == 5 && "music"@[0] == 'm' && "music"@[1] == 'u');
    assert("spotify"@.len() == 7 && "spotify"@[0] == 's' && "spotify"@[1] == 'p');
    assert("yakuake"@.len() == 7 && "yakuake"@[0] == 'y' && "yakuake"@[1] == 'a');
    assert("konsole"@.len() == 7 && "konsole"@[0] == 'k' && "konsole"@[1] == 'o');
    assert("gnome-terminal"@.len() == 14 && "gnome-terminal"@[0] == 'g' && "gnome-terminal"@[1] == 'n');
    assert("kitty"@.len() == 5 && "kitty"@[0] == 'k' && "kitty"@[1] == 'i');
    assert("alacritty"@.len() == 9 && "alacritty"@[0] == 'a' && "alacritty"@[1] == 'l');
    assert("typora"@.len() == 6 && "typora"@[0] == 't' && "typora"@[1] == 'y');
    assert("slack"@.len() == 5 && "slack"@[0] == 's' && "slack"@[1] == 'l');
    assert("jetbrains-idea"@.len() == 14 && "jetbrains-idea"@[0] == 'j' && "jetbrains-idea"@[1] == 'e');
    assert("jetbrains-clion"@.len() == 15 && "jetbrains-clion"@[0] == 'j' && "jetbrains-clion"@[1] == 'e');
    assert("jetbrains-pycharm"@.len() == 17 && "jetbrains-pycharm"@[0] == 'j' && "jetbrains-pycharm"@[1] == 'e');
    assert("jetbrains-goland"@.len() == 16 && "jetbrains-goland"@[0] == 'j' && "jetbrains-goland"@[1] == 'e');
    assert("jetbrains-studio"@.len() == 16 && "jetbrains-studio"@[0] == 'j' && "jetbrains-studio"@[1] == 'e');
    assert("jetbrains-rustrover"@.len() == 19 && "jetbrains-rustrover"@[0] == 'j' && "jetbrains-rustrover"@[1] == 'e');
    assert("jetbrains-goland"@[10] == 'g' && "jetbrains-studio"@[10] == 's');
    assert(title_of(t[24].0) == t[24].1) by {
        reveal_with_fuel(exact_from, 25);
    }
    assert(title_of(t[25].0) == t[25].1) by {
        reveal_with_fuel(exact_from, 26);
    }
    assert(title_of(t[26].0) == t[26].1) by {
        reveal_with_fuel(exact_from, 27);
    }
    assert(title_of(t[27].0) == t[27].1) by {
        reveal_with_fuel(exact_from, 28);
    }
    assert(title_of(t[28].0) == t[28].1) by {
        reveal_with_fuel(exact_from, 29);
    }
}

#[verifier::rlimit(100)]
proof fn lemma_known_classes_29_34()
    ensures
        forall|i: int| 29 <= i < 34 ==> title_of(#[trigger] class_table()[i].0) == class_table()[i].1,
{
    reveal_strlit("code");
    reveal_strlit("jetbrains-webstorm");
    reveal_strlit("telegram");
    reveal_strlit("wechat");
    reveal_strlit("discord");
    reveal_strlit("thunderbird");
    reveal_strlit("kmail");
    reveal_strlit("qqmusic");
    reveal_strlit("qq");
    reveal_strlit("google-chrome");
    reveal_strlit("chromium");
    reveal_strlit("thorium");
    reveal_strlit("firefox");
    reveal_strlit("yesplaymusic");
    reveal_strlit("music");
    reveal_strlit("spotify");
    reveal_strlit("yakuake");
    reveal_strlit("konsole");
    reveal_strlit("gnome-terminal");
    reveal_strlit("kitty");
    reveal_strlit("alacritty");
    reveal_strlit("typora");
    reveal_strlit("slack");
    reveal_strlit("jetbrains-idea");
    reveal_strlit("jetbrains-clion");
    reveal_strlit("jetbrains-pycharm");
    reveal_strlit("jetbrains-goland");
    reveal_strlit("jetbrains-studio");
    reveal_strlit("jetbrains-rustrover");
    reveal_strlit("sublime_text");
    reveal_strlit("atom");
    reveal_strlit("libreoffice");
    reveal_strlit("vlc");
    reveal_strlit("obs");
    let t = class_table();
    assert("code"@.len() == 4 && "code"@[0] == 'c' && "code"@[1] == 'o');
    assert("jetbrains-webstorm"@.len() == 18 && "jetbrains-webstorm"@[0] == 'j' && "jetbrains-webstorm"@[1] == 'e');
    assert("telegram"@.len() == 8 && "telegram"@[0] == 't' && "telegram"@[1] == 'e');
    assert("wechat"@.len() == 6 && "wechat"@[0] == 'w' && "wechat"@[1] == 'e');
    assert("discord"@.len() == 7 && "discord"@[0] == 'd' && "discord"@[1] == 'i');
    assert("thunderbird"@.len() == 11 && "thunderbird"@[0] == 't' && "thunderbird"@[1] == 'h');
    assert("kmail"@.len() == 5 && "kmail"@[0] == 'k' && "kmail"@[1] == 'm');
    assert("qqmusic"@.len() == 7 && "qqmusic"@[0] == 'q' && "qqmusic"@[1] == 'q');
    assert("qq"@.len() == 2 && "qq"@[0] == 'q' && "qq"@[1] == 'q');
    assert("google-chrome"@.len() == 13 && "google-chrome"@[0] == 'g' && "google-chrome"@[1] == 'o');
    assert("chromium"@.len() == 8 && "chromium"@[0] == 'c' && "chromium"@[1] == 'h');
    assert("thorium"@.len() == 7 && "thorium"@[0] == 't' && "thorium"@[1] == 'h');
    assert("firefox"@.len() == 7 && "firefox"@[0] == 'f' && "firefox"@[1] == 'i');
    assert("yesplaymusic"@.len() == 12 && "yesplaymusic"@[0] == 'y' && "yesplaymusic"@[1] == 'e');
    assert("music"@.len() == 5 && "music"@[0] == 'm' && "music"@[1] == 'u');
    assert("spotify"@.len() == 7 && "spotify"@[0] == 's' && "spotify"@[1] == 'p');
    assert("yakuake"@.len() == 7 && "yakuake"@[0] == 'y' && "yakuake"@[1] == 'a');
    assert("konsole"@.len() == 7 && "konsole"@[0] == 'k' && "konsole"@[1] == 'o');
    assert("gnome-terminal"@.len() == 14 && "gnome-terminal"@[0] == 'g' && "gnome-terminal"@[1] == 'n');
    assert("kitty"@.len() == 5 && "kitty"@[0] == 'k' && "kitty"@[1] == 'i');
    assert("alacritty"@.len() == 9 && "alacritty"@[0] == 'a' && "alacritty"@[1] == 'l');
    assert("typora"@.len() == 6 && "typora"@[0] == 't' && "typora"@[1] == 'y');
    assert("slack"@.len() == 5 && "slack"@[0] == 's' && "slack"@[1] == 'l');
    assert("jetbrains-idea"@.len() == 14 && "jetbrains-idea"@[0] == 'j' && "jetbrains-idea"@[1] == 'e');
    assert("jetbrains-clion"@.len() == 15 && "jetbrains-clion"@[0] == 'j' && "jetbrains-clion"@[1] == 'e');
    assert("jetbrains-pycharm"@.len() == 17 && "jetbrains-pycharm"@[0] == 'j' && "jetbrains-pycharm"@[1] == 'e');
    assert("jetbrains-goland"@.len() == 16 && "jetbrains-goland"@[0] == 'j' && "jetbrains-goland"@[1] == 'e');
    assert("jetbrains-studio"@.len() == 16 && "jetbrains-studio"@[0] == 'j' && "jetbrains-studio"@[1] == 'e');
    assert("jetbrains-rustrover"@.len() == 19 && "jetbrains-rustrover"@[0] == 'j' && "jetbrains-rustrover"@[1] == 'e');
    assert("sublime_text"@.len() == 12 && "sublime_text"@[0] == 's' && "sublime_text"@[1] == 'u');
    assert("atom"@.len() == 4 && "atom"@[0] == 'a' && "atom"@[1] == 't');
    assert("libreoffice"@.len() == 11 && "libreoffice"@[0] == 'l' && "libreoffice"@[1] == 'i');
    assert("vlc"@.len() == 3 && "vlc"@[0] == 'v' && "vlc"@[1] == 'l');
    assert("obs"@.len() == 3 && "obs"@[0] == 'o' && "obs"@[1] == 'b');
    assert("jetbrains-goland"@[10] == 'g' && "jetbrains-studio"@[10] == 's');
    assert(title_of(t[29].0) == t[29].1) by {
        reveal_with_fuel(exact_from, 30);
    }
    assert(title_of(t[30].0) == t[30].1) by {
        reveal_with_fuel(exact_from, 31);
    }
    assert(title_of(t[31].0) == t[31].1) by {
        reveal_with_fuel(exact_from, 32);
    }
    assert(title_of(t[32].0) == t[32].1) by {
        reveal_with_fuel(exact_from, 33);
    }
    assert(title_of(t[33].0) == t[33].1) by {
        reveal_with_fuel(exact_from, 34);
    }
}

/// Every window class of the table is classified as the application listed
/// beside it, and a class in which no key of the table occurs is `Unknown`.
pub proof fn lemma_known_classes(s: Seq<char>)
    ensures
        forall|i: int|
            0 <= i < class_table().len() ==> title_of(#[trigger] class_table()[i].0)
                == class_table()[i].1,
        (forall|j: int| 0 <= j < class_table().len() ==> !contains(s, #[trigger] class_table()[j].0))
            ==> title_of(s) == WindowTitle::Unknown,
{
    lemma_known_classes_0_10();
    lemma_known_classes_10_18();
    lemma_known_classes_18_24();
    lemma_known_classes_24_29();
    lemma_known_classes_29_34();
    let t = class_table();
    if forall|j: int| 0 <= j < t.len() ==> !contains(s, #[trigger] t[j].0) {
        lemma_no_key_occurs(t, s, 0);
    }
}

proof fn lemma_partial_at(t: Seq<(Seq<char>, WindowTitle)>, s: Seq<char>, i: int, k: int)
    requires
        0 <= k <= i < t.len(),
        contains(s, t[i].0),
        forall|j: int| k <= j < i ==> !contains(s, #[trigger] t[j].0),
    ensures
        partial_from(t, s, k) == Some(t[i].1),
    decreases i - k,
{
    if k < i {
        lemma_partial_at(t, s, i, k + 1);
    }
}

proof fn lemma_no_exact(t: Seq<(Seq<char>, WindowTitle)>, s: Seq<char>, k: int)
    requires
        0 <= k,
        forall|j: int| k <= j < t.len() ==> (#[trigger] t[j]).0 != s,
    ensures
        exact_from(t, s, k) is None,
    decreases t.len() - k,
{
    if k < t.len() {
        lemma_no_exact(t, s, k + 1);
    }
}

/// A lower-cased class that is no key of the table itself but holds one is
/// classified as the application of the first key that it holds.
pub proof fn lemma_class_holding_key(s: Seq<char>, i: int)
    requires
        0 <= i < class_table().len(),
        contains(s, class_table()[i].0),
        forall|j: int| 0 <= j < i ==> !contains(s, #[trigger] class_table()[j].0),
        forall|j: int| 0 <= j < class_table().len() ==> (#[trigger] class_table()[j]).0 != s,
    ensures
        title_of(s) == class_table()[i].1,
{
    lemma_no_exact(class_table(), s, 0);
    lemma_partial_at(class_table(), s, i, 0);
}

/// The lower-case form of a string, as `str::to_lowercase` computes it.
pub uninterp spec fn lower_of(s: Seq<char>) -> Seq<char>;

/// Relies on `str::to_lowercase`: the result depends on the characters alone.
#[verifier::external_body]
pub(crate) fn lowercase(s: &str) -> (r: String)
    ensures
        r@ == lower_of(s@),
{
    s.to_lowercase()
}

/// The window classes that the classifier knows, as `class_table` lists them.
fn class_entries() -> (r: Vec<(&'static str, WindowTitle)>)
    ensures
        r.len() == class_table().len(),
        forall|i: int| 0 <= i < r.len() ==> (#[trigger] r[i]).0@ == class_table()[i].0 && r[i].1
            == class_table()[i].1,
{
    let r = vec![
        ("code", WindowTitle::Code),
        ("jetbrains-webstorm", WindowTitle::WebStorm),
        ("telegram", WindowTitle::Telegram),
        ("wechat", WindowTitle::WeChat),
        ("discord", WindowTitle::Discord),
        ("thunderbird", WindowTitle::Mail),
        ("kmail", WindowTitle::Mail),
        ("qqmusic", WindowTitle::QQMusic),
        ("qq", WindowTitle::QQ),
        ("google-chrome", WindowTitle::Chrome),
        ("chromium", WindowTitle::Chrome),
        ("thorium", WindowTitle::Chrome),
        ("firefox", WindowTitle::Firefox),
        ("yesplaymusic", WindowTitle::NetEaseMusic),
        ("music", WindowTitle::NetEaseMusic),
        ("spotify", WindowTitle::Spotify),
        ("yakuake", WindowTitle::ITerm2),
        ("konsole", WindowTitle::ITerm2),
        ("gnome-terminal", WindowTitle::ITerm2),
        ("kitty", WindowTitle::ITerm2),
        ("alacritty", WindowTitle::ITerm2),
        ("typora", WindowTitle::Typora),
        ("slack", WindowTitle::Slack),
        ("jetbrains-idea", WindowTitle::Idea),
        ("jetbrains-clion", WindowTitle::CLion),
        ("jetbrains-pycharm", WindowTitle::PyCharm),
        ("jetbrains-goland", WindowTitle::GoLand),
        ("jetbrains-studio", WindowTitle::AndroidStudio),
        ("jetbrains-rustrover", WindowTitle::RustRover),
        ("sublime_text", WindowTitle::SublimeText),
        ("atom", WindowTitle::Atom),
        ("libreoffice", WindowTitle::LibreOffice),
        ("vlc", WindowTitle::VLC),
        ("obs", WindowTitle::OBS),
    ];
    assert(r@ =~= seq![
        ("code", WindowTitle::Code),
        ("jetbrains-webstorm", WindowTitle::WebStorm),
        ("telegram", WindowTitle::Telegram),
        ("wechat", WindowTitle::WeChat),
        ("discord", WindowTitle::Discord),
        ("thunderbird", WindowTitle::Mail),
        ("kmail", WindowTitle::Mail),
        ("qqmusic", WindowTitle::QQMusic),
        ("qq", WindowTitle::QQ),
        ("google-chrome", WindowTitle::Chrome),
        ("chromium", WindowTitle::Chrome),
        ("thorium", WindowTitle::Chrome),
        ("firefox", WindowTitle::Firefox),
        ("yesplaymusic", WindowTitle::NetEaseMusic),
        ("music", WindowTitle::NetEaseMusic),
        ("spotify", WindowTitle::Spotify),
        ("yakuake", WindowTitle::ITerm2),
        ("konsole", WindowTitle::ITerm2),
        ("gnome-terminal", WindowTitle::ITerm2),
        ("kitty", WindowTitle::ITerm2),
        ("alacritty", WindowTitle::ITerm2),
        ("typora", WindowTitle::Typora),
        ("slack", WindowTitle::Slack),
        ("jetbrains-idea", WindowTitle::Idea),
        ("jetbrains-clion", WindowTitle::CLion),
        ("jetbrains-pycharm", WindowTitle::PyCharm),
        ("jetbrains-goland", WindowTitle::GoLand),
        ("jetbrains-studio", WindowTitle::AndroidStudio),
        ("jetbrains-rustrover", WindowTitle::RustRover),
        ("sublime_text", WindowTitle::SublimeText),
        ("atom", WindowTitle::Atom),
        ("libreoffice", WindowTitle::LibreOffice),
        ("vlc", WindowTitle::VLC),
        ("obs", WindowTitle::OBS),
    ]);
    r
}

impl WindowTitle {
    /// The canonical name under which the application is reported.
    pub open spec fn spec_name(self) -> Seq<char> {
        match self {
            WindowTitle::Code => "Code"@,
            WindowTitle::WebStorm => "WebStorm"@,
            WindowTitle::Telegram => "Telegram"@,
            WindowTitle::WeChat => "WeChat"@,
            WindowTitle::Discord => "Discord"@,
            WindowTitle::Mail => "Mail"@,
            WindowTitle::QQ => "QQ"@,
            WindowTitle::Chrome => "Chrome"@,
            WindowTitle::QQMusic => "QQ音乐"@,
            WindowTitle::NetEaseMusic => "NetEaseMusic"@,
            WindowTitle::ITerm2 => "iTerm2"@,
            WindowTitle::Typora => "Typora"@,
            WindowTitle::Firefox => "Firefox"@,
            WindowTitle::Spotify => "Spotify"@,
            WindowTitle::Slack => "Slack"@,
            WindowTitle::Idea => "IDEA"@,
            WindowTitle::PyCharm => "PyCharm"@,
            WindowTitle::GoLand => "GoLand"@,
            WindowTitle::CLion => "CLion"@,
            WindowTitle::AndroidStudio => "Android Studio"@,
            WindowTitle::RustRover => "RustRover"@,
            WindowTitle::SublimeText => "Sublime Text"@,
            WindowTitle::Atom => "Atom"@,
            WindowTitle::LibreOffice => "LibreOffice"@,
            WindowTitle::VLC => "VLC"@,
            WindowTitle::OBS => "OBS"@,
            WindowTitle::Unknown => "None"@,
        }
    }

    /// The canonical name under which the application is reported.
    pub fn name(&self) -> (r: &'static str)
        ensures
            r@ == self.spec_name(),
    {
        match self {
            WindowTitle::Code => "Code",
            WindowTitle::WebStorm => "WebStorm",
            WindowTitle::Telegram => "Telegram",
            WindowTitle::WeChat => "WeChat",
            WindowTitle::Discord => "Discord",
            WindowTitle::Mail => "Mail",
            WindowTitle::QQ => "QQ",
            WindowTitle::Chrome => "Chrome",
            WindowTitle::QQMusic => "QQ音乐",
            WindowTitle::NetEaseMusic => "NetEaseMusic",
            WindowTitle::ITerm2 => "iTerm2",
            WindowTitle::Typora => "Typora",
            WindowTitle::Firefox => "Firefox",
            WindowTitle::Spotify => "Spotify",
            WindowTitle::Slack => "Slack",
            WindowTitle::Idea => "IDEA",
            WindowTitle::PyCharm => "PyCharm",
            WindowTitle::GoLand => "GoLand",
            WindowTitle::CLion => "CLion",
            WindowTitle::AndroidStudio => "Android Studio",
            WindowTitle::RustRover => "RustRover",
            WindowTitle::SublimeText => "Sublime Text",
            WindowTitle::Atom => "Atom",
            WindowTitle::LibreOffice => "LibreOffice",
            WindowTitle::VLC => "VLC",
            WindowTitle::OBS => "OBS",
            WindowTitle::Unknown => "None",
        }
    }

    /// The application for a window class that is already in lower case.
    pub fn from_lowercase(s: &str) -> (r: WindowTitle)
        ensures
            r == title_of(s@),
    {
        let chars = chars_of(s);
        let table = class_entries();
        let mut i: usize = 0;
        while i < table.len()
            invariant
                table.len() == class_table().len(),
                forall|j: int| 0 <= j < table.len() ==> (#[trigger] table[j]).0@ == class_table()[j].0
                    && table[j].1 == class_table()[j].1,
                chars@ == s@,
                i <= table.len(),
                exact_from(class_table(), s@, 0) == exact_from(class_table(), s@, i as int),
            decreases table.len() - i,
        {
            let key = chars_of(table[i].0);
            if same_chars(&key, &chars) {
                return table[i].1;
            }
            i = i + 1;
        }
        let mut i: usize = 0;
        while i < table.len()
            invariant
                table.len() == class_table().len(),
                forall|j: int| 0 <= j < table.len() ==> (#[trigger] table[j]).0@ == class_table()[j].0
                    && table[j].1 == class_table()[j].1,
                chars@ == s@,
                i <= table.len(),
                exact_from(class_table(), s@, 0) is None,
                partial_from(class_table(), s@, 0) == partial_from(class_table(), s@, i as int),
            decreases table.len() - i,
        {
            let key = chars_of(table[i].0);
            if has(&chars, &key) {
                return table[i].1;
            }
            i = i + 1;
        }
        WindowTitle::Unknown
    }

    /// The application that owns a window of the given class, in any letter case.
    pub fn from_string(s: &str) -> (r: WindowTitle)
        ensures
            r == title_of(lower_of(s@)),
    {
        let lower = lowercase(s);
        WindowTitle::from_lowercase(lower.as_str())
    }
}

} // verus!

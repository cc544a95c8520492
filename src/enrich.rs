//! Commentary attached to a report, chosen by the application being reported.

use vstd::prelude::*;

use crate::classify::lower_of;
use crate::text::{chars_of, contains, has};

verus! {

/// Keywords, each with the commentary for applications whose lower-cased name
/// holds it, in the order in which they are tried.
pub open spec fn extend_table() -> Seq<(Seq<char>, Seq<char>)> {
    seq![
        ("idea"@, "要么享受着kt的爽，要么就是面向Spring开发中"@),
        ("clion"@, "不会有人不喜欢C++吧？ 唉依赖，也是念起CMake vcpkg conan的好了"@),
        ("code"@, "ESLint和Prettier天天在我的配置文件里打架"@),
        ("firefox"@, "CSS调试唯一指定亲爹，但产品经理的电脑上没有它"@),
        ("chrome"@, "Lighthouse跑分专用浏览器，只要关掉插件，我的网站就天下第一"@),
        ("iterm2"@, "美化半天，结果99%的时间都在看 `npm install` 的进度条"@),
        ("webstorm"@, "自动导入一时爽，索引项目火葬场，专治各种 'any' 写法"@),
        ("pycharm"@, "后端同事的快乐老家，据说那里的缩进能决定项目死活"@),
        ("goland"@, "新潮后端们的圣杯，据说能用interface{}写出JavaScript的感觉"@),
        ("rustrover"@, "类型安全 无畏并发 Cargo 启动，编译慢到让人发指"@),
        ("discord"@, "React/Vue/Svelte 官方指定撕逼广场"@),
        ("spotify"@, "专注码字BGM生成器，一首歌的时间刚好够我命名一个CSS class"@),
        ("telegram"@, "Vite作者的日常茶馆，前端前沿资讯的第一手信源（如果你看得懂）"@),
        ("wechat"@, "前端兼容性噩梦的始作俑者，梦回IE6"@),
        ("qqmusic"@, "当我的Babel编译卡住时，唯一能抚慰我心灵的东西"@),
        ("yesplaymusic"@, "用Electron包装的听歌神器，充分体现了前端'万物皆可JS'的黑客精神"@),
        ("music"@, "修复IE兼容性问题时的专用BGM播放器，评论区里都是同道中人"@),
        ("qq"@, "内置浏览器比微信还离谱，上古前端技术展览馆"@),
        ("slack"@, "代码截图和部署机器人专用公告栏，以及Giphy斗图大赛主场"@),
        ("typora"@, "写README.md的唯一动力，毕竟它排版比我写的UI好看多了"@),
        ("vlc"@, "用来播放网上下载的付费教程，2倍速是基本操作"@),
        ("obs"@, "录制 Bug 复现视频专用，顺便幻想自己是 live-coding 大神"@),
        ("thunderbird"@, "GitHub和Vercel的通知轰炸区，专门用来接收构建失败的噩耗"@),
        ("kmail"@, "GitHub和Vercel的通知轰炸区 II：The Sequel"@),
        ("studio"@, "Gradle syncing... @OptIn(Experimental::class)"@),
        ("sublime_text"@, "上古前端大神们的信仰，打开速度比我的HMR（热更新）还快"@),
        ("atom"@, "Electron的亲儿子，VSCode的探路石，前端圈的活化石"@),
        ("libreoffice"@, "当产品经理发来一个.odt格式的需求文档时，我的内心就和打开它的样式一样崩溃"@),
    ]
}

/// The commentary of the first entry from `i` on whose keyword occurs in `s`;
/// empty where none does.
pub open spec fn extend_from(t: Seq<(Seq<char>, Seq<char>)>, s: Seq<char>, i: int) -> Seq<char>
    decreases t.len() - i,
{
    if i < 0 || i >= t.len() {
        Seq::empty()
    } else if contains(s, t[i].0) {
        t[i].1
    } else {
        extend_from(t, s, i + 1)
    }
}

/// The commentary for an application name that is already in lower case.
pub open spec fn extend_text(lower: Seq<char>) -> Seq<char> {
    extend_from(extend_table(), lower, 0)
}

fn extend_entries() -> (r: Vec<(&'static str, &'static str)>)
    ensures
        r.len() == extend_table().len(),
        forall|i: int| 0 <= i < r.len() ==> (#[trigger] r[i]).0@ == extend_table()[i].0 && r[i].1@
            == extend_table()[i].1,
{
    let r = vec![
        ("idea", "要么享受着kt的爽，要么就是面向Spring开发中"),
        ("clion", "不会有人不喜欢C++吧？ 唉依赖，也是念起CMake vcpkg conan的好了"),
        ("code", "ESLint和Prettier天天在我的配置文件里打架"),
        ("firefox", "CSS调试唯一指定亲爹，但产品经理的电脑上没有它"),
        ("chrome", "Lighthouse跑分专用浏览器，只要关掉插件，我的网站就天下第一"),
        ("iterm2", "美化半天，结果99%的时间都在看 `npm install` 的进度条"),
        ("webstorm", "自动导入一时爽，索引项目火葬场，专治各种 'any' 写法"),
        ("pycharm", "后端同事的快乐老家，据说那里的缩进能决定项目死活"),
        ("goland", "新潮后端们的圣杯，据说能用interface{}写出JavaScript的感觉"),
        ("rustrover", "类型安全 无畏并发 Cargo 启动，编译慢到让人发指"),
        ("discord", "React/Vue/Svelte 官方指定撕逼广场"),
        ("spotify", "专注码字BGM生成器，一首歌的时间刚好够我命名一个CSS class"),
        ("telegram", "Vite作者的日常茶馆，前端前沿资讯的第一手信源（如果你看得懂）"),
        ("wechat", "前端兼容性噩梦的始作俑者，梦回IE6"),
        ("qqmusic", "当我的Babel编译卡住时，唯一能抚慰我心灵的东西"),
        ("yesplaymusic", "用Electron包装的听歌神器，充分体现了前端'万物皆可JS'的黑客精神"),
        ("music", "修复IE兼容性问题时的专用BGM播放器，评论区里都是同道中人"),
        ("qq", "内置浏览器比微信还离谱，上古前端技术展览馆"),
        ("slack", "代码截图和部署机器人专用公告栏，以及Giphy斗图大赛主场"),
        ("typora", "写README.md的唯一动力，毕竟它排版比我写的UI好看多了"),
        ("vlc", "用来播放网上下载的付费教程，2倍速是基本操作"),
        ("obs", "录制 Bug 复现视频专用，顺便幻想自己是 live-coding 大神"),
        ("thunderbird", "GitHub和Vercel的通知轰炸区，专门用来接收构建失败的噩耗"),
        ("kmail", "GitHub和Vercel的通知轰炸区 II：The Sequel"),
        ("studio", "Gradle syncing... @OptIn(Experimental::class)"),
        ("sublime_text", "上古前端大神们的信仰，打开速度比我的HMR（热更新）还快"),
        ("atom", "Electron的亲儿子，VSCode的探路石，前端圈的活化石"),
        ("libreoffice", "当产品经理发来一个.odt格式的需求文档时，我的内心就和打开它的样式一样崩溃"),
    ];
    assert(r@ =~= seq![
        ("idea", "要么享受着kt的爽，要么就是面向Spring开发中"),
        ("clion", "不会有人不喜欢C++吧？ 唉依赖，也是念起CMake vcpkg conan的好了"),
        ("code", "ESLint和Prettier天天在我的配置文件里打架"),
        ("firefox", "CSS调试唯一指定亲爹，但产品经理的电脑上没有它"),
        ("chrome", "Lighthouse跑分专用浏览器，只要关掉插件，我的网站就天下第一"),
        ("iterm2", "美化半天，结果99%的时间都在看 `npm install` 的进度条"),
        ("webstorm", "自动导入一时爽，索引项目火葬场，专治各种 'any' 写法"),
        ("pycharm", "后端同事的快乐老家，据说那里的缩进能决定项目死活"),
        ("goland", "新潮后端们的圣杯，据说能用interface{}写出JavaScript的感觉"),
        ("rustrover", "类型安全 无畏并发 Cargo 启动，编译慢到让人发指"),
        ("discord", "React/Vue/Svelte 官方指定撕逼广场"),
        ("spotify", "专注码字BGM生成器，一首歌的时间刚好够我命名一个CSS class"),
        ("telegram", "Vite作者的日常茶馆，前端前沿资讯的第一手信源（如果你看得懂）"),
        ("wechat", "前端兼容性噩梦的始作俑者，梦回IE6"),
        ("qqmusic", "当我的Babel编译卡住时，唯一能抚慰我心灵的东西"),
        ("yesplaymusic", "用Electron包装的听歌神器，充分体现了前端'万物皆可JS'的黑客精神"),
        ("music", "修复IE兼容性问题时的专用BGM播放器，评论区里都是同道中人"),
        ("qq", "内置浏览器比微信还离谱，上古前端技术展览馆"),
        ("slack", "代码截图和部署机器人专用公告栏，以及Giphy斗图大赛主场"),
        ("typora", "写README.md的唯一动力，毕竟它排版比我写的UI好看多了"),
        ("vlc", "用来播放网上下载的付费教程，2倍速是基本操作"),
        ("obs", "录制 Bug 复现视频专用，顺便幻想自己是 live-coding 大神"),
        ("thunderbird", "GitHub和Vercel的通知轰炸区，专门用来接收构建失败的噩耗"),
        ("kmail", "GitHub和Vercel的通知轰炸区 II：The Sequel"),
        ("studio", "Gradle syncing... @OptIn(Experimental::class)"),
        ("sublime_text", "上古前端大神们的信仰，打开速度比我的HMR（热更新）还快"),
        ("atom", "Electron的亲儿子，VSCode的探路石，前端圈的活化石"),
        ("libreoffice", "当产品经理发来一个.odt格式的需求文档时，我的内心就和打开它的样式一样崩溃"),
    ]);
    r
}

/// The commentary for an application name that is already in lower case.
pub fn extend_info_lowered(lower: &str) -> (r: String)
    ensures
        r@ == extend_text(lower@),
{
    let chars = chars_of(lower);
    let table = extend_entries();
    let mut i: usize = 0;
    while i < table.len()
        invariant
            table.len() == extend_table().len(),
            forall|j: int| 0 <= j < table.len() ==> (#[trigger] table[j]).0@ == extend_table()[j].0
                && table[j].1@ == extend_table()[j].1,
            chars@ == lower@,
            i <= table.len(),
            extend_text(lower@) == extend_from(extend_table(), lower@, i as int),
        decreases table.len() - i,
    {
        if has(&chars, &chars_of(table[i].0)) {
            return table[i].1.to_string();
        }
        i = i + 1;
    }
    String::new()
}

/// The commentary for the application `process_name`, in any letter case; empty
/// where no keyword occurs in it.
pub fn get_extend_info(process_name: &str) -> (r: String)
    ensures
        r@ == extend_text(lower_of(process_name@)),
{
    let lower = crate::classify::lowercase(process_name);
    extend_info_lowered(lower.as_str())
}

} // verus!

//! The translation tables of the user interface, keyed by short dotted
//! names. The Chinese table is the default; a key neither table knows maps
//! to a visible placeholder rather than vanishing.

use vstd::prelude::*;
use crate::strutil::str_eq_str;

verus! {

/// The languages the UI can show.
#[derive(Debug, Clone, Copy, PartialEq, Eq, Structural)]
pub enum Lang {
    ZhCn,
    En,
}

impl Lang {
    /// The language's own name, in itself.
    pub fn name(&self) -> (r: &'static str)
        ensures
            *self is ZhCn ==> r@ == "简体中文"@,
            *self is En ==> r@ == "English"@,
    {
        match self {
            Lang::ZhCn => "简体中文",
            Lang::En => "English",
        }
    }

    /// Every language, in presentation order.
    pub fn all() -> (r: Vec<Lang>)
        ensures
            r.len() == 2,
            r[0] is ZhCn,
            r[1] is En,
    {
        let mut v: Vec<Lang> = Vec::new();
        v.push(Lang::ZhCn);
        v.push(Lang::En);
        v
    }
}

impl Default for Lang {
    fn default() -> (r: Self)
        ensures
            r is ZhCn,
    {
        Lang::ZhCn
    }
}

/// The Chinese table, as the lookup it performs.
pub open spec fn spec_zh_cn(key: Seq<char>) -> Seq<char> {
    if key == "app.title"@ {
        "NativeHub"@
    } else if key == "app.subtitle"@ {
        "原生 GitHub 客户端"@
    } else if key == "login.title"@ {
        "连接到 GitHub"@
    } else if key == "login.button"@ {
        "登录 GitHub"@
    } else if key == "login.button_icon"@ {
        "🔐"@
    } else if key == "login.connecting"@ {
        "正在建立连接..."@
    } else if key == "login.error_prefix"@ {
        "错误"@
    } else if key == "auth.title"@ {
        "安全验证"@
    } else if key == "auth.instruction"@ {
        "请在浏览器中输入以下验证码:"@
    } else if key == "auth.copy_code"@ {
        "复制验证码"@
    } else if key == "auth.open_browser"@ {
        "打开浏览器"@
    } else if key == "auth.waiting"@ {
        "等待验证中..."@
    } else if key == "repos.title"@ {
        "仓库列表"@
    } else if key == "repos.refresh"@ {
        "刷新"@
    } else if key == "repos.loading"@ {
        "正在加载仓库..."@
    } else if key == "repos.empty"@ {
        "暂无数据，请点击刷新"@
    } else if key == "repos.private"@ {
        "私有"@
    } else if key == "repos.public"@ {
        "公开"@
    } else if key == "log.title"@ {
        "系统日志"@
    } else if key == "log.system_online"@ {
        "系统已就绪"@
    } else if key == "log.awaiting"@ {
        "等待操作..."@
    } else if key == "log.scanning_gh"@ {
        "正在检测 GH CLI..."@
    } else if key == "log.gh_found"@ {
        "已找到 GH CLI 令牌!"@
    } else if key == "log.connection_ok"@ {
        "安全连接已建立"@
    } else if key == "log.fetching_repos"@ {
        "正在获取仓库列表..."@
    } else if key == "log.found_repos"@ {
        "找到 {} 个仓库"@
    } else if key == "log.opening_repo"@ {
        "正在打开仓库: {}..."@
    } else if key == "log.browser_launched"@ {
        "浏览器已启动"@
    } else if key == "settings.language"@ {
        "语言"@
    } else if key == "common.cancel"@ {
        "取消"@
    } else if key == "common.confirm"@ {
        "确认"@
    } else if key == "common.error"@ {
        "错误"@
    } else if key == "common.success"@ {
        "成功"@
    } else {
        "[MISSING]"@
    }
}

/// Chinese (Simplified) translations.
pub fn zh_cn(key: &str) -> (r: &'static str)
    ensures
        r@ == spec_zh_cn(key@),
{
    if str_eq_str(key, "app.title") {
        "NativeHub"
    } else if str_eq_str(key, "app.subtitle") {
        "原生 GitHub 客户端"
    } else if str_eq_str(key, "login.title") {
        "连接到 GitHub"
    } else if str_eq_str(key, "login.button") {
        "登录 GitHub"
    } else if str_eq_str(key, "login.button_icon") {
        "🔐"
    } else if str_eq_str(key, "login.connecting") {
        "正在建立连接..."
    } else if str_eq_str(key, "login.error_prefix") {
        "错误"
    } else if str_eq_str(key, "auth.title") {
        "安全验证"
    } else if str_eq_str(key, "auth.instruction") {
        "请在浏览器中输入以下验证码:"
    } else if str_eq_str(key, "auth.copy_code") {
        "复制验证码"
    } else if str_eq_str(key, "auth.open_browser") {
        "打开浏览器"
    } else if str_eq_str(key, "auth.waiting") {
        "等待验证中..."
    } else if str_eq_str(key, "repos.title") {
        "仓库列表"
    } else if str_eq_str(key, "repos.refresh") {
        "刷新"
    } else if str_eq_str(key, "repos.loading") {
        "正在加载仓库..."
    } else if str_eq_str(key, "repos.empty") {
        "暂无数据，请点击刷新"
    } else if str_eq_str(key, "repos.private") {
        "私有"
    } else if str_eq_str(key, "repos.public") {
        "公开"
    } else if str_eq_str(key, "log.title") {
        "系统日志"
    } else if str_eq_str(key, "log.system_online") {
        "系统已就绪"
    } else if str_eq_str(key, "log.awaiting") {
        "等待操作..."
    } else if str_eq_str(key, "log.scanning_gh") {
        "正在检测 GH CLI..."
    } else if str_eq_str(key, "log.gh_found") {
        "已找到 GH CLI 令牌!"
    } else if str_eq_str(key, "log.connection_ok") {
        "安全连接已建立"
    } else if str_eq_str(key, "log.fetching_repos") {
        "正在获取仓库列表..."
    } else if str_eq_str(key, "log.found_repos") {
        "找到 {} 个仓库"
    } else if str_eq_str(key, "log.opening_repo") {
        "正在打开仓库: {}..."
    } else if str_eq_str(key, "log.browser_launched") {
        "浏览器已启动"
    } else if str_eq_str(key, "settings.language") {
        "语言"
    } else if str_eq_str(key, "common.cancel") {
        "取消"
    } else if str_eq_str(key, "common.confirm") {
        "确认"
    } else if str_eq_str(key, "common.error") {
        "错误"
    } else if str_eq_str(key, "common.success") {
        "成功"
    } else {
        "[MISSING]"
    }
}

/// The English table, as the lookup it performs.
pub open spec fn spec_en(key: Seq<char>) -> Seq<char> {
    if key == "app.title"@ {
        "NativeHub"@
    } else if key == "app.subtitle"@ {
        "Native GitHub Client"@
    } else if key == "login.title"@ {
        "Connect to GitHub"@
    } else if key == "login.button"@ {
        "LOGIN WITH GITHUB"@
    } else if key == "login.button_icon"@ {
        "🔐"@
    } else if key == "login.connecting"@ {
        "ESTABLISHING UPLINK..."@
    } else if key == "login.error_prefix"@ {
        "ERROR"@
    } else if key == "auth.title"@ {
        "SECURITY CHECKPOINT"@
    } else if key == "auth.instruction"@ {
        "Enter this code in your browser:"@
    } else if key == "auth.copy_code"@ {
        "COPY CODE"@
    } else if key == "auth.open_browser"@ {
        "OPEN BROWSER"@
    } else if key == "auth.waiting"@ {
        "Waiting for verification..."@
    } else if key == "repos.title"@ {
        "REPOSITORIES"@
    } else if key == "repos.refresh"@ {
        "REFRESH"@
    } else if key == "repos.loading"@ {
        "Accessing GitHub Uplink..."@
    } else if key == "repos.empty"@ {
        "No Data Stream. Click Refresh."@
    } else if key == "repos.private"@ {
        "Private"@
    } else if key == "repos.public"@ {
        "Public"@
    } else if key == "log.title"@ {
        "SYSTEM LOG"@
    } else if key == "log.system_online"@ {
        "SYSTEM LINE ONLINE."@
    } else if key == "log.awaiting"@ {
        "AWAITING INPUT..."@
    } else if key == "log.scanning_gh"@ {
        "SCANNING FOR GH CLI..."@
    } else if key == "log.gh_found"@ {
        "GH CLI TOKEN FOUND!"@
    } else if key == "log.connection_ok"@ {
        "Secure Connection Established."@
    } else if key == "log.fetching_repos"@ {
        "FETCHING REPOS VIA GH CLI..."@
    } else if key == "log.found_repos"@ {
        "FOUND {} REPOSITORIES."@
    } else if key == "log.opening_repo"@ {
        "OPENING REPO: {}..."@
    } else if key == "log.browser_launched"@ {
        "BROWSER LAUNCHED."@
    } else if key == "settings.language"@ {
        "Language"@
    } else if key == "common.cancel"@ {
        "Cancel"@
    } else if key == "common.confirm"@ {
        "Confirm"@
    } else if key == "common.error"@ {
        "Error"@
    } else if key == "common.success"@ {
        "Success"@
    } else {
        "[MISSING]"@
    }
}

/// English translations.
pub fn en(key: &str) -> (r: &'static str)
    ensures
        r@ == spec_en(key@),
{
    if str_eq_str(key, "app.title") {
        "NativeHub"
    } else if str_eq_str(key, "app.subtitle") {
        "Native GitHub Client"
    } else if str_eq_str(key, "login.title") {
        "Connect to GitHub"
    } else if str_eq_str(key, "login.button") {
        "LOGIN WITH GITHUB"
    } else if str_eq_str(key, "login.button_icon") {
        "🔐"
    } else if str_eq_str(key, "login.connecting") {
        "ESTABLISHING UPLINK..."
    } else if str_eq_str(key, "login.error_prefix") {
        "ERROR"
    } else if str_eq_str(key, "auth.title") {
        "SECURITY CHECKPOINT"
    } else if str_eq_str(key, "auth.instruction") {
        "Enter this code in your browser:"
    } else if str_eq_str(key, "auth.copy_code") {
        "COPY CODE"
    } else if str_eq_str(key, "auth.open_browser") {
        "OPEN BROWSER"
    } else if str_eq_str(key, "auth.waiting") {
        "Waiting for verification..."
    } else if str_eq_str(key, "repos.title") {
        "REPOSITORIES"
    } else if str_eq_str(key, "repos.refresh") {
        "REFRESH"
    } else if str_eq_str(key, "repos.loading") {
        "Accessing GitHub Uplink..."
    } else if str_eq_str(key, "repos.empty") {
        "No Data Stream. Click Refresh."
    } else if str_eq_str(key, "repos.private") {
        "Private"
    } else if str_eq_str(key, "repos.public") {
        "Public"
    } else if str_eq_str(key, "log.title") {
        "SYSTEM LOG"
    } else if str_eq_str(key, "log.system_online") {
        "SYSTEM LINE ONLINE."
    } else if str_eq_str(key, "log.awaiting") {
        "AWAITING INPUT..."
    } else if str_eq_str(key, "log.scanning_gh") {
        "SCANNING FOR GH CLI..."
    } else if str_eq_str(key, "log.gh_found") {
        "GH CLI TOKEN FOUND!"
    } else if str_eq_str(key, "log.connection_ok") {
        "Secure Connection Established."
    } else if str_eq_str(key, "log.fetching_repos") {
        "FETCHING REPOS VIA GH CLI..."
    } else if str_eq_str(key, "log.found_repos") {
        "FOUND {} REPOSITORIES."
    } else if str_eq_str(key, "log.opening_repo") {
        "OPENING REPO: {}..."
    } else if str_eq_str(key, "log.browser_launched") {
        "BROWSER LAUNCHED."
    } else if str_eq_str(key, "settings.language") {
        "Language"
    } else if str_eq_str(key, "common.cancel") {
        "Cancel"
    } else if str_eq_str(key, "common.confirm") {
        "Confirm"
    } else if str_eq_str(key, "common.error") {
        "Error"
    } else if str_eq_str(key, "common.success") {
        "Success"
    } else {
        "[MISSING]"
    }
}

/// What `get` returns for a language and key.
pub open spec fn spec_get(lang: Lang, key: Seq<char>) -> Seq<char> {
    match lang {
        Lang::ZhCn => spec_zh_cn(key),
        Lang::En => spec_en(key),
    }
}

/// The translated string for a key in a language; a placeholder for a key
/// neither table holds.
pub fn get(lang: Lang, key: &str) -> (r: &'static str)
    ensures
        r@ == spec_get(lang, key@),
{
    match lang {
        Lang::ZhCn => zh_cn(key),
        Lang::En => en(key),
    }
}

/// The translation context the UI carries.
#[derive(Debug, Clone, Copy, PartialEq, Eq, Structural)]
pub struct I18n {
    pub lang: Lang,
}

impl Default for I18n {
    fn default() -> (r: Self)
        ensures
            r.lang is ZhCn,
    {
        I18n { lang: Lang::ZhCn }
    }
}

impl I18n {
    pub fn new(lang: Lang) -> (r: Self)
        ensures
            r.lang == lang,
    {
        I18n { lang }
    }

    /// The translated string for a key in the current language.
    pub fn t(&self, key: &str) -> (r: &'static str)
        ensures
            r@ == spec_get(self.lang, key@),
    {
        get(self.lang, key)
    }

    /// Switches the language.
    pub fn set_lang(&mut self, lang: Lang)
        ensures
            final(self).lang == lang,
    {
        self.lang = lang;
    }
}

} // verus!

//! The configuration document: completion of missing settings with their
//! defaults, and the flat list of settings shown to the user.
//!
//! The document is a `toml_edit::DocumentMut`, which keeps the user's
//! formatting and comments; the contracts speak of it through two views:
//! which tables it holds with which keys, and which string values it holds.
use vstd::prelude::*;
use crate::config::normalize_comments;
use crate::text::push_char;

verus! {

#[verifier::external_type_specification]
#[verifier::external_body]
pub struct ExDocumentMut(toml_edit::DocumentMut);

/// The document's top-level tables, each with the keys it holds.
pub uninterp spec fn toml_tables(d: toml_edit::DocumentMut) -> Map<Seq<char>, Set<Seq<char>>>;

/// The string found under each section and key: what
/// `doc.get(section).and_then(|t| t.get(key)).and_then(|i| i.as_str())` yields.
pub uninterp spec fn toml_strings(d: toml_edit::DocumentMut) -> Map<(Seq<char>, Seq<char>), Seq<char>>;

/// Every item of the document that is not a standard table, keyed by the
/// path of keys that reaches it from the root when each key is looked up in
/// turn (through standard and inline tables, skipping empty items), with
/// the item's TOML text as `Item`'s `Display` writes it.
pub uninterp spec fn toml_leaves(d: toml_edit::DocumentMut) -> Map<Seq<Seq<char>>, Seq<char>>;

/// The string under `section` and `key`, if any.
pub open spec fn string_at(d: toml_edit::DocumentMut, section: Seq<char>, key: Seq<char>) -> Option<
    Seq<char>,
> {
    if toml_strings(d).contains_key((section, key)) {
        Some(toml_strings(d)[(section, key)])
    } else {
        None
    }
}

/// The document holds no item.
pub open spec fn holds_nothing(d: toml_edit::DocumentMut) -> bool {
    &&& toml_tables(d) == Map::<Seq<char>, Set<Seq<char>>>::empty()
    &&& toml_strings(d) == Map::<(Seq<char>, Seq<char>), Seq<char>>::empty()
    &&& toml_leaves(d) == Map::<Seq<Seq<char>>, Seq<char>>::empty()
}

/// From `before` to `after`, the item under `section` became an empty table
/// and nothing else changed.
pub open spec fn section_cleared(
    before: toml_edit::DocumentMut,
    after: toml_edit::DocumentMut,
    section: Seq<char>,
) -> bool {
    &&& toml_tables(after) == toml_tables(before).insert(section, Set::empty())
    &&& forall|s: Seq<char>, k: Seq<char>|
        s != section ==> #[trigger] string_at(after, s, k) == string_at(before, s, k)
    &&& forall|k: Seq<char>| #[trigger] string_at(after, section, k) is None
    &&& forall|p: Seq<Seq<char>>|
        #[trigger] toml_leaves(after).contains_key(p) == (toml_leaves(before).contains_key(p) && p[0]
            != section)
    &&& forall|p: Seq<Seq<char>>|
        #[trigger] toml_leaves(after).contains_key(p) ==> toml_leaves(after)[p] == toml_leaves(before)[p]
}

/// From `before` to `after`, no item other than the one under `section` and
/// `key` appeared, disappeared or changed its text.
pub open spec fn leaves_kept_but(
    before: toml_edit::DocumentMut,
    after: toml_edit::DocumentMut,
    section: Seq<char>,
    key: Seq<char>,
) -> bool {
    &&& forall|p: Seq<Seq<char>>|
        p != seq![section, key] ==> #[trigger] toml_leaves(after).contains_key(p) == toml_leaves(
            before,
        ).contains_key(p)
    &&& forall|p: Seq<Seq<char>>|
        p != seq![section, key] && #[trigger] toml_leaves(after).contains_key(p) ==> toml_leaves(
            after,
        )[p] == toml_leaves(before)[p]
}

/// The document holds a table `section` with `key` in it.
pub open spec fn holds_key(d: toml_edit::DocumentMut, section: Seq<char>, key: Seq<char>) -> bool {
    toml_tables(d).contains_key(section) && toml_tables(d)[section].contains(key)
}

/// What `toml_edit` reads from a text: `None` when it is not TOML, else the
/// tables with their keys and the string values, as the two views give them.
pub uninterp spec fn toml_parse_of(text: Seq<char>) -> Option<
    (Map<Seq<char>, Set<Seq<char>>>, Map<(Seq<char>, Seq<char>), Seq<char>>, Map<Seq<Seq<char>>, Seq<char>>),
>;

/// `d` is what `toml_edit` reads from `text`.
pub open spec fn parsed_as(text: Seq<char>, d: toml_edit::DocumentMut) -> bool {
    toml_parse_of(text) == Some((toml_tables(d), toml_strings(d), toml_leaves(d)))
}

/// Relies on `DocumentMut`'s `FromStr`: the parsed document, or `None` for
/// text that is not TOML; the result depends on the text alone.
#[verifier::external_body]
fn parse_document(text: &str) -> (r: Option<toml_edit::DocumentMut>)
    ensures
        r is Some == toml_parse_of(text@) is Some,
        r matches Some(d) ==> parsed_as(text@, d),
{
    text.parse::<toml_edit::DocumentMut>().ok()
}

/// Relies on `DocumentMut::new`: a document with no items.
#[verifier::external_body]
fn empty_document() -> (r: toml_edit::DocumentMut)
    ensures
        holds_nothing(r),
{
    toml_edit::DocumentMut::new()
}

/// Relies on `Table::contains_table`: whether the item under `section`
/// exists and is a table.
#[verifier::external_body]
fn has_table(d: &toml_edit::DocumentMut, section: &str) -> (r: bool)
    ensures
        r == toml_tables(*d).contains_key(section@),
{
    d.contains_table(section)
}

/// Relies on `Table`'s `IndexMut`: the item under `section` becomes a new,
/// empty, implicit table; nothing else changes.
#[verifier::external_body]
fn put_empty_table(d: &mut toml_edit::DocumentMut, section: &str)
    ensures
        section_cleared(*old(d), *final(d), section@),
        toml_tables(*final(d)).contains_key(section@),
{
    let mut t = toml_edit::Table::new();
    t.set_implicit(true);
    d.as_table_mut()[section] = toml_edit::Item::Table(t);
}

/// Relies on `Table::contains_key`, on the table under `section`: whether
/// it holds a non-empty item under `key`.
#[verifier::external_body]
fn table_has_key(d: &toml_edit::DocumentMut, section: &str, key: &str) -> (r: bool)
    requires
        toml_tables(*d).contains_key(section@),
    ensures
        r == toml_tables(*d)[section@].contains(key@),
        !r ==> !toml_leaves(*d).contains_key(seq![section@, key@]),
{
    d.get(section).and_then(|i| i.as_table()).map_or(false, |t| t.contains_key(key))
}

/// Relies on `Table::is_empty`, on the table under `section`: whether it
/// holds no non-empty item.
#[verifier::external_body]
fn table_is_empty(d: &toml_edit::DocumentMut, section: &str) -> (r: bool)
    requires
        toml_tables(*d).contains_key(section@),
    ensures
        r == toml_tables(*d)[section@].is_empty(),
{
    d.get(section).and_then(|i| i.as_table()).map_or(true, |t| t.is_empty())
}

/// Relies on `Table::insert` into the table under `section`, where `key`
/// holds nothing yet: `key` gets the string `value`; nothing else changes.
#[verifier::external_body]
fn put_string(d: &mut toml_edit::DocumentMut, section: &str, key: &str, value: &str)
    requires
        toml_tables(*old(d)).contains_key(section@),
        !toml_tables(*old(d))[section@].contains(key@),
    ensures
        toml_tables(*final(d)) == toml_tables(*old(d)).insert(
            section@,
            toml_tables(*old(d))[section@].insert(key@),
        ),
        toml_strings(*final(d)) == toml_strings(*old(d)).insert((section@, key@), value@),
        leaves_kept_but(*old(d), *final(d), section@, key@),
{
    if let Some(t) = d.get_mut(section).and_then(|i| i.as_table_mut()) {
        t.insert(key, toml_edit::value(value));
    }
}

/// Relies on `Table::get_key_value_mut` and `Decor::set_prefix`: the text
/// written before `key` in the table under `section` becomes `prefix`;
/// keys and values do not change.
#[verifier::external_body]
fn set_key_prefix(d: &mut toml_edit::DocumentMut, section: &str, key: &str, prefix: &str)
    ensures
        toml_tables(*final(d)) == toml_tables(*old(d)),
        toml_strings(*final(d)) == toml_strings(*old(d)),
        toml_leaves(*final(d)) == toml_leaves(*old(d)),
{
    if let Some(t) = d.get_mut(section).and_then(|i| i.as_table_mut()) {
        if let Some((mut k, _)) = t.get_key_value_mut(key) {
            k.leaf_decor_mut().set_prefix(prefix);
        }
    }
}

/// Relies on `Table::get` twice and `Item::as_str`: the string under
/// `section` and `key`.
#[verifier::external_body]
fn lookup_string(d: &toml_edit::DocumentMut, section: &str, key: &str) -> (r: Option<String>)
    ensures
        r is Some == toml_strings(*d).contains_key((section@, key@)),
        r matches Some(v) ==> v@ == toml_strings(*d)[(section@, key@)],
{
    d.get(section).and_then(|t| t.get(key)).and_then(|i| i.as_str()).map(|s| s.to_string())
}

/// Relies on `DocumentMut`'s `Display`: the document as TOML text.
#[verifier::external_body]
fn document_text(d: &toml_edit::DocumentMut) -> (r: String) {
    d.to_string()
}

/// One setting the launcher knows, with its default and the comment lines
/// written above it when it is added.
pub struct ConfigDefault {
    pub section: String,
    pub key: String,
    pub value: String,
    pub comments: Vec<String>,
}

/// One setting as shown to the user: where it lives, its current value,
/// and the comment lines that explain it.
pub struct ConfigEntry {
    pub section: String,
    pub key: String,
    pub value: String,
    pub comments: Vec<String>,
}

/// Section, key and default value of every known setting, in order.
pub open spec fn default_settings() -> Seq<(Seq<char>, Seq<char>, Seq<char>)> {
    seq![
        ("Appearance"@, "theme"@, "auto"@),
        ("Manifests"@, "core_components_manifest_url"@, listing_url(CORE_LISTING_STEM@)),
        ("Manifests"@, "plugins_manifest_url"@, listing_url(PLUGIN_LISTING_STEM@)),
        ("Network"@, "backend_port"@, "60983"@),
        ("Network"@, "proxy_address"@, ""@),
    ]
}

/// Where the project publishes the files of its latest release.
pub const RELEASE_DOWNLOAD_BASE: &'static str = "https://github.com/Creeper-of-Fire/YAESandBox/releases/latest/download/";

/// File stem of the listing of core components in a release.
pub const CORE_LISTING_STEM: &'static str = "core_components_manifest";

/// File stem of the listing of plugins in a release.
pub const PLUGIN_LISTING_STEM: &'static str = "plugins_manifest";

/// Extension of the listing files.
pub const LISTING_EXTENSION: &'static str = ".json";

/// Default address of the listing file with `stem`.
pub open spec fn listing_url(stem: Seq<char>) -> Seq<char> {
    RELEASE_DOWNLOAD_BASE@ + stem + LISTING_EXTENSION@
}

fn listing_url_of(stem: &str) -> (r: String)
    ensures
        r@ == listing_url(stem@),
{
    let mut s = String::from_str(RELEASE_DOWNLOAD_BASE);
    s.append(stem);
    s.append(LISTING_EXTENSION);
    s
}

/// Text a new configuration file starts with.
pub const DEFAULT_CONFIG_START: &'static str = "# --- YAESandBox 启动器配置 ---\n# 本文件用于配置启动器的更新源、网络和外观设置。\n";

/// File name of the configuration, beside the executable.
pub const CONFIG_FILENAME: &'static str = "launcher.config";

/// The comment lines written above each known setting, in order.
pub open spec fn default_comments() -> Seq<Seq<Seq<char>>> {
    seq![
        seq!["# 应用主题设置。"@, "# auto  = 跟随操作系统设置"@, "# light = 始终为浅色模式"@, "# dark  = 始终为深色模式"@],
        seq!["# 核心组件清单文件 URL，指向包含启动器自身、前端、后端等更新信息的 JSON 文件。"@, "# 使用 \"latest\" 通常是指向最新的稳定版本。"@],
        seq!["# 插件清单文件 URL，指向包含所有可选插件信息的 JSON 文件。"@, "# 这允许插件列表与核心组件分开维护和更新。"@],
        seq!["# 后端服务监听的本地端口。"@, "# 设置为 \"auto\" 将自动选择一个未被占用的端口（不推荐，会导致浏览器缓存失效）。"@, "# 推荐使用一个固定的、不容易被其他程序占用的端口（例如 10000-65535 之间）。"@],
        seq!["# 网络代理设置。如果您的网络环境需要代理才能访问 GitHub，请在此处填写。"@, "# 格式为: http://<ip>:<port> 或者 socks5://<ip>:<port>"@, "# 例如: http://127.0.0.1:7890"@, "# 如果不需要代理，请留空。"@],
    ]
}

/// The setting at position `i` of `defaults` has that section, key, value
/// and comment lines.
pub open spec fn default_is(d: &ConfigDefault, i: int) -> bool {
    &&& (d.section@, d.key@, d.value@) == default_settings()[i]
    &&& texts(d.comments@) == default_comments()[i]
}

/// The texts of a vector of strings.
pub open spec fn texts(v: Seq<String>) -> Seq<Seq<char>> {
    v.map_values(|s: String| s@)
}

fn copy_strings(items: &Vec<String>) -> (r: Vec<String>)
    ensures
        texts(r@) == texts(items@),
{
    let mut v: Vec<String> = Vec::new();
    let mut i: usize = 0;
    while i < items.len()
        invariant
            i <= items@.len(),
            texts(v@) == texts(items@.take(i as int)),
        decreases items@.len() - i,
    {
        let ghost prev = texts(v@);
        let t = items[i].clone();
        v.push(t);
        assert(texts(v@) =~= prev.push(t@));
        assert(texts(items@.take(i + 1)) =~= texts(items@.take(i as int)).push(items@[i as int]@));
        i = i + 1;
    }
    assert(items@.take(items@.len() as int) =~= items@);
    v
}

fn make_default(section: &str, key: &str, value: String, comments: Vec<String>) -> (r: ConfigDefault)
    ensures
        r.section@ == section@,
        r.key@ == key@,
        r.value@ == value@,
        texts(r.comments@) == texts(comments@),
{
    ConfigDefault {
        section: String::from_str(section),
        key: String::from_str(key),
        value,
        comments,
    }
}

/// The comment lines of the known setting at position `i`.
fn comment_lines(i: usize) -> (r: Vec<String>)
    requires
        i < default_comments().len(),
    ensures
        texts(r@) == default_comments()[i as int],
{
    let mut v: Vec<String> = Vec::new();
    if i == 0 {
        v.push(String::from_str("# 应用主题设置。"));
        v.push(String::from_str("# auto  = 跟随操作系统设置"));
        v.push(String::from_str("# light = 始终为浅色模式"));
        v.push(String::from_str("# dark  = 始终为深色模式"));
    } else if i == 1 {
        v.push(String::from_str("# 核心组件清单文件 URL，指向包含启动器自身、前端、后端等更新信息的 JSON 文件。"));
        v.push(String::from_str("# 使用 \"latest\" 通常是指向最新的稳定版本。"));
    } else if i == 2 {
        v.push(String::from_str("# 插件清单文件 URL，指向包含所有可选插件信息的 JSON 文件。"));
        v.push(String::from_str("# 这允许插件列表与核心组件分开维护和更新。"));
    } else if i == 3 {
        v.push(String::from_str("# 后端服务监听的本地端口。"));
        v.push(String::from_str("# 设置为 \"auto\" 将自动选择一个未被占用的端口（不推荐，会导致浏览器缓存失效）。"));
        v.push(String::from_str("# 推荐使用一个固定的、不容易被其他程序占用的端口（例如 10000-65535 之间）。"));
    } else if i == 4 {
        v.push(String::from_str("# 网络代理设置。如果您的网络环境需要代理才能访问 GitHub，请在此处填写。"));
        v.push(String::from_str("# 格式为: http://<ip>:<port> 或者 socks5://<ip>:<port>"));
        v.push(String::from_str("# 例如: http://127.0.0.1:7890"));
        v.push(String::from_str("# 如果不需要代理，请留空。"));
    }
    assert(texts(v@) =~= default_comments()[i as int]);
    v
}

/// Every setting the launcher knows, with its default, in order.
pub fn config_defaults() -> (r: Vec<ConfigDefault>)
    ensures
        r@.len() == default_settings().len(),
        forall|i: int| 0 <= i < r@.len() ==> default_is(&#[trigger] r@[i], i),
{
    let mut v: Vec<ConfigDefault> = Vec::new();
    v.push(
        make_default(
            "Appearance",
            "theme",
            String::from_str("auto"),
            comment_lines(0),
        ),
    );
    v.push(
        make_default(
            "Manifests",
            "core_components_manifest_url",
            listing_url_of(CORE_LISTING_STEM),
            comment_lines(1),
        ),
    );
    v.push(
        make_default(
            "Manifests",
            "plugins_manifest_url",
            listing_url_of(PLUGIN_LISTING_STEM),
            comment_lines(2),
        ),
    );
    v.push(
        make_default(
            "Network",
            "backend_port",
            String::from_str("60983"),
            comment_lines(3),
        ),
    );
    v.push(
        make_default(
            "Network",
            "proxy_address",
            String::from_str(""),
            comment_lines(4),
        ),
    );
    v
}

proof fn lemma_default_keys_distinct()
    ensures
        forall|i: int, j: int|
            0 <= i < j < default_settings().len() ==> #[trigger] default_settings()[i].1
                != #[trigger] default_settings()[j].1,
{
    reveal_strlit("theme");
    reveal_strlit("core_components_manifest_url");
    reveal_strlit("plugins_manifest_url");
    reveal_strlit("backend_port");
    reveal_strlit("proxy_address");
    let ds = default_settings();
    assert(ds[0].1.len() == 5);
    assert(ds[1].1.len() == 28);
    assert(ds[2].1.len() == 20);
    assert(ds[3].1.len() == 12);
    assert(ds[4].1.len() == 13);
}

/// The value a default setting has after completion: kept when the document
/// already held the key, the default otherwise.
pub open spec fn completed_value(before: toml_edit::DocumentMut, i: int) -> Option<Seq<char>> {
    let (s, k, v) = default_settings()[i];
    if holds_key(before, s, k) {
        string_at(before, s, k)
    } else {
        Some(v)
    }
}

/// Everything `before` held is still held by `after`, with the same string.
pub open spec fn keeps_everything(before: toml_edit::DocumentMut, after: toml_edit::DocumentMut) -> bool {
    forall|s: Seq<char>, k: Seq<char>|
        #[trigger] holds_key(before, s, k) ==> holds_key(after, s, k) && string_at(after, s, k)
            == string_at(before, s, k)
}

/// `s` is the section of some known setting.
pub open spec fn default_section(s: Seq<char>) -> bool {
    exists|i: int| 0 <= i < default_settings().len() && #[trigger] default_settings()[i].0 == s
}

/// Every item of `before` that is not under a known section that `before`
/// lacks as a standard table is still in `after`, with the same text.
pub open spec fn keeps_leaves(before: toml_edit::DocumentMut, after: toml_edit::DocumentMut) -> bool {
    forall|p: Seq<Seq<char>>|
        #[trigger] toml_leaves(before).contains_key(p) && (toml_tables(before).contains_key(p[0])
            || !default_section(p[0])) ==> toml_leaves(after).contains_key(p) && toml_leaves(after)[p]
            == toml_leaves(before)[p]
}

/// The leaf prefix written before an added key: a blank line when the
/// section already holds something, then each comment line.
fn comment_prefix(separate: bool, comments: &Vec<String>) -> (r: String) {
    let mut prefix = String::new();
    if separate {
        push_char(&mut prefix, '\n');
    }
    let mut i: usize = 0;
    while i < comments.len()
        decreases comments.len() - i,
    {
        prefix.append(comments[i].as_str());
        push_char(&mut prefix, '\n');
        i = i + 1;
    }
    prefix
}

/// Adds every missing known setting, and any missing section, with its
/// default and comments; what the document held is left as it was.
/// Returns whether anything was added.
pub fn complete_config(doc: &mut toml_edit::DocumentMut) -> (changed: bool)
    ensures
        keeps_everything(*old(doc), *final(doc)),
        keeps_leaves(*old(doc), *final(doc)),
        forall|i: int|
            0 <= i < default_settings().len() ==> holds_key(
                *final(doc),
                #[trigger] default_settings()[i].0,
                default_settings()[i].1,
            ) && string_at(*final(doc), default_settings()[i].0, default_settings()[i].1)
                == completed_value(*old(doc), i),
        changed == exists|i: int|
            0 <= i < default_settings().len() && !#[trigger] holds_key(
                *old(doc),
                default_settings()[i].0,
                default_settings()[i].1,
            ),
{
    let defaults = config_defaults();
    let ghost start = *doc;
    let ghost ds = default_settings();
    let mut changed = false;
    let mut i: usize = 0;
    proof {
        lemma_default_keys_distinct();
    }
    while i < defaults.len()
        invariant
            ds == default_settings(),
            defaults@.len() == ds.len(),
            forall|j: int| 0 <= j < defaults@.len() ==> default_is(&#[trigger] defaults@[j], j),
            forall|a: int, b: int| 0 <= a < b < ds.len() ==> #[trigger] ds[a].1 != #[trigger] ds[b].1,
            i <= defaults@.len(),
            start == *old(doc),
            keeps_everything(start, *doc),
            keeps_leaves(start, *doc),
            forall|t: Seq<char>|
                #[trigger] toml_tables(start).contains_key(t) ==> toml_tables(*doc).contains_key(t),
            forall|j: int|
                0 <= j < i ==> holds_key(*doc, #[trigger] ds[j].0, ds[j].1) && string_at(
                    *doc,
                    ds[j].0,
                    ds[j].1,
                ) == completed_value(start, j),
            forall|s: Seq<char>, k: Seq<char>|
                #[trigger] holds_key(*doc, s, k) && !holds_key(start, s, k) ==> exists|j: int|
                    0 <= j < i && ds[j].0 == s && ds[j].1 == k,
            changed == exists|j: int| 0 <= j < i && !#[trigger] holds_key(start, ds[j].0, ds[j].1),
        decreases defaults@.len() - i,
    {
        let d = &defaults[i];
        assert(default_is(d, i as int));
        let ghost before = *doc;
        let ghost (s, k, v) = ds[i as int];
        if !has_table(doc, d.section.as_str()) {
            put_empty_table(doc, d.section.as_str());
            changed = true;
            proof {
                assert(!holds_key(start, s, k));
                assert forall|a: Seq<char>, b: Seq<char>| #[trigger] holds_key(start, a, b) implies holds_key(*doc, a, b)
                    && string_at(*doc, a, b) == string_at(start, a, b) by {
                    assert(holds_key(before, a, b));
                    assert(a != s);
                }
                assert forall|j: int| 0 <= j < i implies holds_key(*doc, #[trigger] ds[j].0, ds[j].1)
                    && string_at(*doc, ds[j].0, ds[j].1) == completed_value(start, j) by {
                    assert(holds_key(before, ds[j].0, ds[j].1));
                }
                assert forall|a: Seq<char>, b: Seq<char>|
                    #[trigger] holds_key(*doc, a, b) && !holds_key(start, a, b) implies exists|j: int|
                        0 <= j < i && ds[j].0 == a && ds[j].1 == b by {
                    assert(a != s);
                    assert(holds_key(before, a, b));
                }
            }
        }
        let ghost mid = *doc;
        if !table_has_key(doc, d.section.as_str(), d.key.as_str()) {
            let separate = !table_is_empty(doc, d.section.as_str());
            let prefix = comment_prefix(separate, &d.comments);
            put_string(doc, d.section.as_str(), d.key.as_str(), d.value.as_str());
            set_key_prefix(doc, d.section.as_str(), d.key.as_str(), prefix.as_str());
            changed = true;
            proof {
                assert(!holds_key(mid, s, k));
                assert(!holds_key(start, s, k));
                assert forall|a: Seq<char>, b: Seq<char>| #[trigger] holds_key(start, a, b) implies holds_key(*doc, a, b)
                    && string_at(*doc, a, b) == string_at(start, a, b) by {
                    assert(holds_key(mid, a, b));
                    assert((a, b) != (s, k));
                }
                assert forall|j: int| 0 <= j < i implies holds_key(*doc, #[trigger] ds[j].0, ds[j].1)
                    && string_at(*doc, ds[j].0, ds[j].1) == completed_value(start, j) by {
                    assert(holds_key(mid, ds[j].0, ds[j].1));
                    assert((ds[j].0, ds[j].1) != (s, k));
                }
                assert(string_at(*doc, s, k) == Some(v));
                assert forall|a: Seq<char>, b: Seq<char>|
                    #[trigger] holds_key(*doc, a, b) && !holds_key(start, a, b) implies exists|j: int|
                        0 <= j < i + 1 && ds[j].0 == a && ds[j].1 == b by {
                    if (a, b) != (s, k) {
                        assert(holds_key(mid, a, b));
                        let j = choose|j: int| 0 <= j < i && ds[j].0 == a && ds[j].1 == b;
                        assert(0 <= j < i + 1 && ds[j].0 == a && ds[j].1 == b);
                    } else {
                        assert(ds[i as int].0 == a && ds[i as int].1 == b);
                    }
                }
            }
        } else {
            proof {
                if !holds_key(start, s, k) {
                    assert(holds_key(*doc, s, k));
                    let j = choose|j: int| 0 <= j < i && ds[j].0 == s && ds[j].1 == k;
                    assert(ds[j].1 != ds[i as int].1);
                }
            }
        }
        i = i + 1;
    }
    changed
}

/// The value a known setting has once `text` is loaded: what the text
/// holds where it holds the key, the default where it does not or where it
/// is not TOML.
pub open spec fn loaded_value(text: Seq<char>, i: int) -> Option<Seq<char>> {
    let (s, k, v) = default_settings()[i];
    match toml_parse_of(text) {
        None => Some(v),
        Some(p) => if p.0.contains_key(s) && p.0[s].contains(k) {
            if p.1.contains_key((s, k)) {
                Some(p.1[(s, k)])
            } else {
                None
            }
        } else {
            Some(v)
        },
    }
}

/// Everything the parsed `text` held, `d` still holds: each key of a
/// standard table with the same string, and each other item, with the same
/// text, unless it lies under a known section that the text does not hold
/// as a standard table (that item gives way to the section's table).
pub open spec fn keeps_parsed(text: Seq<char>, d: toml_edit::DocumentMut) -> bool {
    match toml_parse_of(text) {
        None => true,
        Some(p) => {
            &&& forall|s: Seq<char>, k: Seq<char>|
                p.0.contains_key(s) && #[trigger] p.0[s].contains(k) ==> holds_key(d, s, k)
                    && string_at(d, s, k) == if p.1.contains_key((s, k)) {
                    Some(p.1[(s, k)])
                } else {
                    None
                }
            &&& forall|q: Seq<Seq<char>>|
                #[trigger] p.2.contains_key(q) && (p.0.contains_key(q[0]) || !default_section(q[0]))
                    ==> toml_leaves(d).contains_key(q) && toml_leaves(d)[q] == p.2[q]
        },
    }
}

/// The text parses, and some known setting is missing from it.
pub open spec fn misses_default(text: Seq<char>) -> bool {
    toml_parse_of(text) matches Some(p) && exists|i: int|
        0 <= i < default_settings().len() && !(p.0.contains_key(#[trigger] default_settings()[i].0)
            && p.0[default_settings()[i].0].contains(default_settings()[i].1))
}

/// A completed document, and what loading it found.
pub struct LoadedConfig {
    pub doc: toml_edit::DocumentMut,
    /// The text did not parse; the caller backs the file up before saving.
    pub corrupt: bool,
    /// The document differs from what was stored, so it is to be saved.
    pub needs_save: bool,
}

/// Loads configuration text without losing its formatting: legacy comments
/// are migrated, text that does not parse is replaced by an empty document,
/// and every missing setting is completed.  `existed` tells whether the text
/// came from a file.
pub fn load_or_initialize(raw_content: &str, existed: bool) -> (r: LoadedConfig)
    ensures
        forall|i: int|
            0 <= i < default_settings().len() ==> holds_key(
                r.doc,
                #[trigger] default_settings()[i].0,
                default_settings()[i].1,
            ),
        r.corrupt ==> forall|i: int|
            0 <= i < default_settings().len() ==> string_at(
                r.doc,
                #[trigger] default_settings()[i].0,
                default_settings()[i].1,
            ) == Some(default_settings()[i].2),
        r.corrupt == toml_parse_of(crate::config::normalized(raw_content@)) is None,
        forall|i: int|
            0 <= i < default_settings().len() ==> string_at(
                r.doc,
                #[trigger] default_settings()[i].0,
                default_settings()[i].1,
            ) == loaded_value(crate::config::normalized(raw_content@), i),
        keeps_parsed(crate::config::normalized(raw_content@), r.doc),
        !existed || r.corrupt || misses_default(crate::config::normalized(raw_content@))
            ==> r.needs_save,
{
    let normalized = normalize_comments(raw_content);
    let (mut doc, corrupt) = match parse_document(normalized.as_str()) {
        Some(d) => (d, false),
        None => (empty_document(), true),
    };
    let ghost parsed = doc;
    let changed = complete_config(&mut doc);
    proof {
        let text = crate::config::normalized(raw_content@);
        if !corrupt {
            let p = toml_parse_of(text)->Some_0;
            assert forall|s: Seq<char>, k: Seq<char>|
                p.0.contains_key(s) && #[trigger] p.0[s].contains(k) implies holds_key(doc, s, k)
                    && string_at(doc, s, k) == if p.1.contains_key((s, k)) {
                    Some(p.1[(s, k)])
                } else {
                    None
                } by {
                assert(holds_key(parsed, s, k));
            }
            assert forall|q: Seq<Seq<char>>|
                #[trigger] p.2.contains_key(q) && (p.0.contains_key(q[0]) || !default_section(q[0]))
                    implies toml_leaves(doc).contains_key(q) && toml_leaves(doc)[q] == p.2[q] by {
                assert(toml_leaves(parsed).contains_key(q));
            }
            if misses_default(text) {
                let i = choose|i: int|
                    0 <= i < default_settings().len() && !(p.0.contains_key(
                        #[trigger] default_settings()[i].0,
                    ) && p.0[default_settings()[i].0].contains(default_settings()[i].1));
                assert(!holds_key(parsed, default_settings()[i].0, default_settings()[i].1));
                assert(changed);
            }
        }
    }
    let text = document_text(&doc);
    let same = raw_content == text.as_str();
    let needs_save = !existed || corrupt || changed || !same;
    LoadedConfig { doc, corrupt, needs_save }
}

/// The string under `section` and `key`, if the document holds one.
pub fn get_value(doc: &toml_edit::DocumentMut, section: &str, key: &str) -> (r: Option<String>)
    ensures
        r is Some == string_at(*doc, section@, key@) is Some,
        r matches Some(v) ==> string_at(*doc, section@, key@) == Some(v@),
{
    lookup_string(doc, section, key)
}

/// The document as TOML text, formatting and comments included.
pub fn get_document_as_string(doc: &toml_edit::DocumentMut) -> (r: String) {
    document_text(doc)
}

/// The known settings with their current values, in order: the document's
/// string where it holds one, the default otherwise.
pub fn get_config_as_entries(doc: &toml_edit::DocumentMut) -> (r: Vec<ConfigEntry>)
    ensures
        r@.len() == default_settings().len(),
        forall|i: int|
            0 <= i < r@.len() ==> {
                let (s, k, v) = default_settings()[i];
                &&& (#[trigger] r@[i]).section@ == s
                &&& r@[i].key@ == k
                &&& texts(r@[i].comments@) == default_comments()[i]
                &&& r@[i].value@ == match string_at(*doc, s, k) {
                    Some(x) => x,
                    None => v,
                }
            },
{
    let defaults = config_defaults();
    let ghost ds = default_settings();
    let mut entries: Vec<ConfigEntry> = Vec::new();
    let mut i: usize = 0;
    while i < defaults.len()
        invariant
            ds == default_settings(),
            defaults@.len() == ds.len(),
            forall|j: int| 0 <= j < defaults@.len() ==> default_is(&#[trigger] defaults@[j], j),
            i <= defaults@.len(),
            entries@.len() == i,
            forall|j: int|
                0 <= j < i ==> {
                    let (s, k, v) = ds[j];
                    &&& (#[trigger] entries@[j]).section@ == s
                    &&& entries@[j].key@ == k
                    &&& texts(entries@[j].comments@) == default_comments()[j]
                    &&& entries@[j].value@ == match string_at(*doc, s, k) {
                        Some(x) => x,
                        None => v,
                    }
                },
        decreases defaults@.len() - i,
    {
        let d = &defaults[i];
        assert(default_is(d, i as int));
        let value = match lookup_string(doc, d.section.as_str(), d.key.as_str()) {
            Some(x) => x,
            None => d.value.clone(),
        };
        entries.push(
            ConfigEntry {
                section: d.section.clone(),
                key: d.key.clone(),
                value,
                comments: copy_strings(&d.comments),
            },
        );
        i = i + 1;
    }
    entries
}

/// Path of the configuration file under `app_dir`.
pub fn get_config_path(app_dir: &str) -> (r: String)
    ensures
        r@ == crate::paths::join_path(app_dir@, CONFIG_FILENAME@),
{
    crate::paths::join_path_str(app_dir, CONFIG_FILENAME)
}

} // verus!

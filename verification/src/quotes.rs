//! Configurable lines for the speech bubble, chosen at random by mood. The
//! keys are the moods' CSS classes (`idle`, `thinking`, ...); while sub-agents
//! run, `{class}_subagent` lists are preferred where they exist.
use vstd::prelude::*;
use vstd::hash_map::StringHashMap;

use crate::clock::now_epoch_nanos;
use crate::pet_core::{mood_class_spec, PetMood};

verus! {

/// Lines by key (a mood's CSS class, or that class followed by `_subagent`).
pub type QuoteTable = StringHashMap<Vec<String>>;

pub open spec fn strings_view(v: Seq<String>) -> Seq<Seq<char>> {
    v.map_values(|s: String| s@)
}

/// A table as the character sequences of its keys and lines.
pub open spec fn table_view(t: Map<Seq<char>, Vec<String>>) -> Map<Seq<char>, Seq<Seq<char>>> {
    t.map_values(|v: Vec<String>| strings_view(v@))
}

/// The context of a pick.
#[derive(Clone, Copy, Default)]
pub struct QuoteContext {
    /// How many sub-agents run; above 0 the `{class}_subagent` lines are tried first.
    pub subagent_depth: u32,
}

/// The index that a clock reading of `nanos` picks among `len` lines.
pub open spec fn mix_index(nanos: u128, len: usize) -> usize {
    if len == 0 {
        0
    } else {
        (((nanos ^ (nanos >> 40u128)) ^ (nanos >> 80u128)) as usize) % len
    }
}

/// Mixes the high bits of a nanosecond reading into an index below `len`
/// (0 where `len` is 0).
pub fn index_from_nanos(nanos: u128, len: usize) -> (r: usize)
    ensures
        r == mix_index(nanos, len),
        len > 0 ==> r < len,
{
    if len == 0 {
        return 0;
    }
    let mixed = (nanos ^ (nanos >> 40u128)) ^ (nanos >> 80u128);
    (mixed as usize) % len
}

fn random_index(len: usize) -> (r: usize)
    ensures
        exists|n: u128| r == mix_index(n, len),
        len > 0 ==> r < len,
        len == 0 ==> r == 0,
{
    if len == 0 {
        assert(0 == mix_index(0, 0));
        return 0;
    }
    let n = now_epoch_nanos();
    index_from_nanos(n, len)
}

/// A random line for `mood_class`, or `label` where the table has no lines
/// for it: the line at `mix_index(nanos, ..)`.
pub open spec fn random_quote_spec(
    table: Map<Seq<char>, Seq<Seq<char>>>,
    mood_class: Seq<char>,
    label: Seq<char>,
    nanos: u128,
) -> Seq<char> {
    if table.contains_key(mood_class) && table[mood_class].len() > 0 {
        table[mood_class][mix_index(nanos, table[mood_class].len() as usize) as int]
    } else {
        label
    }
}

/// Like `random_quote_spec`, preferring `{mood_class}_subagent` while
/// sub-agents run.
pub open spec fn pick_quote_spec(
    table: Map<Seq<char>, Seq<Seq<char>>>,
    mood_class: Seq<char>,
    label: Seq<char>,
    depth: u32,
    nanos: u128,
) -> Seq<char> {
    let key = mood_class + "_subagent"@;
    if depth > 0 && table.contains_key(key) && table[key].len() > 0 {
        table[key][mix_index(nanos, table[key].len() as usize) as int]
    } else {
        random_quote_spec(table, mood_class, label, nanos)
    }
}

/// A line for `mood_class` chosen by the clock reading `nanos`.
pub fn get_random_quote_at(quotes: &QuoteTable, mood_class: &str, label: &str, nanos: u128) -> (r: String)
    ensures
        r@ == random_quote_spec(table_view(quotes@), mood_class@, label@, nanos),
{
    match quotes.get(mood_class) {
        Some(list) => {
            if list.len() == 0 {
                return label.to_string();
            }
            let idx = index_from_nanos(nanos, list.len());
            list[idx].clone()
        },
        None => label.to_string(),
    }
}

/// A random line for `mood_class`; `label` where the table has none.
pub fn get_random_quote(quotes: &QuoteTable, mood_class: &str, label: &str) -> (r: String)
    ensures
        exists|n: u128|
            #![trigger random_quote_spec(table_view(quotes@), mood_class@, label@, n)]
            r@ == random_quote_spec(table_view(quotes@), mood_class@, label@, n),
{
    let n = now_epoch_nanos();
    let r = get_random_quote_at(quotes, mood_class, label, n);
    assert(r@ == random_quote_spec(table_view(quotes@), mood_class@, label@, n));
    r
}

/// A line for `mood_class` chosen by the clock reading `nanos`, from the
/// `_subagent` lines while sub-agents run and such lines exist.
pub fn pick_quote_at(
    quotes: &QuoteTable,
    mood_class: &str,
    label: &str,
    ctx: &QuoteContext,
    nanos: u128,
) -> (r: String)
    ensures
        r@ == pick_quote_spec(table_view(quotes@), mood_class@, label@, ctx.subagent_depth, nanos),
{
    if ctx.subagent_depth > 0 {
        let key = mood_class.to_owned().concat("_subagent");
        match quotes.get(key.as_str()) {
            Some(list) => {
                if list.len() > 0 {
                    let idx = index_from_nanos(nanos, list.len());
                    return list[idx].clone();
                }
            },
            None => {},
        }
    }
    get_random_quote_at(quotes, mood_class, label, nanos)
}

/// A random line for the mood, preferring the `_subagent` lines while
/// sub-agents run; `label` where the table has none.
pub fn pick_quote(quotes: &QuoteTable, mood_class: &str, label: &str, ctx: &QuoteContext) -> (r: String)
    ensures
        exists|n: u128|
            #![trigger pick_quote_spec(table_view(quotes@), mood_class@, label@, ctx.subagent_depth, n)]
            r@ == pick_quote_spec(table_view(quotes@), mood_class@, label@, ctx.subagent_depth, n),
{
    let n = now_epoch_nanos();
    let r = pick_quote_at(quotes, mood_class, label, ctx, n);
    assert(r@ == pick_quote_spec(table_view(quotes@), mood_class@, label@, ctx.subagent_depth, n));
    r
}

fn to_strings(xs: &[&str]) -> (r: Vec<String>)
    ensures
        strings_view(r@) == xs@.map_values(|s: &str| s@),
{
    let mut out: Vec<String> = Vec::new();
    let mut i: usize = 0;
    while i < xs.len()
        invariant
            i <= xs@.len(),
            out@.len() == i,
            forall|j: int| 0 <= j < i ==> (#[trigger] out@[j])@ == xs@[j]@,
        decreases xs@.len() - i,
    {
        let line = xs[i].to_string();
        assert(line@ == xs@[i as int]@);
        out.push(line);
        i = i + 1;
    }
    assert(strings_view(out@) =~= xs@.map_values(|s: &str| s@));
    out
}

pub open spec fn subagent_lines_spec() -> Seq<Seq<char>> {
    seq![
        "分身干活中"@,
        "子任务跑着呢"@,
        "那边也在忙"@,
        "小号加班中"@,
        "分身别摸鱼"@,
        "并行冲冲冲"@,
        "子猪努力中"@,
        "后台在跑"@,
    ]
}

pub open spec fn idle_lines_spec() -> Seq<Seq<char>> {
    seq![
        "在呢在呢"@,
        "等指令中"@,
        "休息一下"@,
        "发会儿呆~"@,
        "放空一下"@,
        "歇歇"@,
        "待机中"@,
        "啥也不干"@,
        "摸鱼预备"@,
        "安静如猪"@,
    ]
}

pub open spec fn coding_lines_spec() -> Seq<Seq<char>> {
    seq![
        "噼里啪啦"@,
        "写写写"@,
        "敲键盘中"@,
        "码码码"@,
        "键盘冒火星"@,
        "本猪在写"@,
        "打字中"@,
        "敲敲敲"@,
        "代码飞起来"@,
        "手速拉满"@,
    ]
}

pub open spec fn thinking_lines_spec() -> Seq<Seq<char>> {
    seq![
        "让本猪想想"@,
        "思考中..."@,
        "脑袋转呀转"@,
        "收到！"@,
        "好的好的"@,
        "本猪来了"@,
        "嗯..."@,
        "在想了在想了"@,
        "脑子转圈圈"@,
        "稍等本猪"@,
        "推理中"@,
        "动脑筋"@,
        "想破小脑瓜"@,
    ]
}

pub open spec fn writing_lines_spec() -> Seq<Seq<char>> {
    seq![
        "噼里啪啦"@,
        "在写呢"@,
        "码字中"@,
        "改文件啦"@,
        "写写写"@,
        "本猪在改"@,
        "刷刷刷"@,
        "编辑中"@,
        "键盘噼里啪啦"@,
        "写好了再叫你"@,
    ]
}

pub open spec fn running_lines_spec() -> Seq<Seq<char>> {
    seq![
        "跑起来~"@,
        "执行中"@,
        "冲冲冲"@,
        "跑跑跑"@,
        "命令跑起来"@,
        "等结果中"@,
        "跑着呢"@,
        "执行跑起来"@,
        "跑完叫你"@,
        "马上好"@,
    ]
}

pub open spec fn searching_lines_spec() -> Seq<Seq<char>> {
    seq![
        "让本猪看看代码"@,
        "翻翻文件"@,
        "搜一搜"@,
        "查查去"@,
        "找找看"@,
        "读读读"@,
        "看看有啥"@,
        "本猪去查"@,
        "找找"@,
        "搜搜"@,
    ]
}

pub open spec fn web_search_lines_spec() -> Seq<Seq<char>> {
    seq![
        "开始网上冲浪"@,
        "冲浪中"@,
        "上网查查"@,
        "让本猪看看"@,
        "网上搜搜"@,
        "冲浪~"@,
        "上网去"@,
        "查查网上"@,
        "冲浪去"@,
        "上网冲浪"@,
    ]
}

pub open spec fn error_lines_spec() -> Seq<Seq<char>> {
    seq![
        "哎呀"@,
        "翻车了"@,
        "没事没事"@,
        "嗐"@,
        "翻车现场"@,
        "不慌不慌"@,
        "再来一次"@,
        "出错了诶"@,
        "本猪也懵了"@,
        "摸摸头"@,
    ]
}

pub open spec fn success_lines_spec() -> Seq<Seq<char>> {
    seq![
        "搞定~"@,
        "棒棒的"@,
        "嘿嘿"@,
        "完成~"@,
        "好耶"@,
        "稳了"@,
        "本猪厉害吧"@,
        "搞定搞定"@,
        "收工"@,
        "完美"@,
    ]
}

pub open spec fn sleeping_lines_spec() -> Seq<Seq<char>> {
    seq![
        "zzZ"@,
        "呼..."@,
        "睡一会儿"@,
        "困了"@,
        "打盹中"@,
        "zzz"@,
        "歇会儿"@,
        "眯一下"@,
        "呼噜呼噜"@,
        "睡香香"@,
    ]
}

pub open spec fn error_subagent_lines_spec() -> Seq<Seq<char>> {
    seq![
        "分身也绊了"@,
        "那边翻车了"@,
        "子任务报错"@,
        "小号翻车"@,
        "并行里有个坑"@,
    ]
}

pub open spec fn success_subagent_lines_spec() -> Seq<Seq<char>> {
    seq![
        "分身收工"@,
        "那边搞定了"@,
        "子任务过线"@,
        "小号立功"@,
    ]
}

pub open spec fn default_table() -> Map<Seq<char>, Seq<Seq<char>>> {
    Map::<Seq<char>, Seq<Seq<char>>>::empty()
        .insert("idle"@, idle_lines_spec())
        .insert("coding"@, coding_lines_spec())
        .insert("thinking"@, thinking_lines_spec())
        .insert("writing"@, writing_lines_spec())
        .insert("running"@, running_lines_spec())
        .insert("searching"@, searching_lines_spec())
        .insert("web-search"@, web_search_lines_spec())
        .insert("error"@, error_lines_spec())
        .insert("success"@, success_lines_spec())
        .insert("sleeping"@, sleeping_lines_spec())
        .insert("thinking_subagent"@, subagent_lines_spec())
        .insert("writing_subagent"@, subagent_lines_spec())
        .insert("running_subagent"@, subagent_lines_spec())
        .insert("searching_subagent"@, subagent_lines_spec())
        .insert("web-search_subagent"@, subagent_lines_spec())
        .insert("error_subagent"@, error_subagent_lines_spec())
        .insert("success_subagent"@, success_subagent_lines_spec())
}

fn subagent_lines() -> (r: Vec<String>)
    ensures
        strings_view(r@) == subagent_lines_spec(),
{
    to_strings(
        &[
            "分身干活中",
            "子任务跑着呢",
            "那边也在忙",
            "小号加班中",
            "分身别摸鱼",
            "并行冲冲冲",
            "子猪努力中",
            "后台在跑",
        ],
    )
}

fn idle_lines() -> (r: Vec<String>)
    ensures
        strings_view(r@) == idle_lines_spec(),
{
    to_strings(
        &[
            "在呢在呢",
            "等指令中",
            "休息一下",
            "发会儿呆~",
            "放空一下",
            "歇歇",
            "待机中",
            "啥也不干",
            "摸鱼预备",
            "安静如猪",
        ],
    )
}

fn coding_lines() -> (r: Vec<String>)
    ensures
        strings_view(r@) == coding_lines_spec(),
{
    to_strings(
        &[
            "噼里啪啦",
            "写写写",
            "敲键盘中",
            "码码码",
            "键盘冒火星",
            "本猪在写",
            "打字中",
            "敲敲敲",
            "代码飞起来",
            "手速拉满",
        ],
    )
}

fn thinking_lines() -> (r: Vec<String>)
    ensures
        strings_view(r@) == thinking_lines_spec(),
{
    to_strings(
        &[
            "让本猪想想",
            "思考中...",
            "脑袋转呀转",
            "收到！",
            "好的好的",
            "本猪来了",
            "嗯...",
            "在想了在想了",
            "脑子转圈圈",
            "稍等本猪",
            "推理中",
            "动脑筋",
            "想破小脑瓜",
        ],
    )
}

fn writing_lines() -> (r: Vec<String>)
    ensures
        strings_view(r@) == writing_lines_spec(),
{
    to_strings(
        &[
            "噼里啪啦",
            "在写呢",
            "码字中",
            "改文件啦",
            "写写写",
            "本猪在改",
            "刷刷刷",
            "编辑中",
            "键盘噼里啪啦",
            "写好了再叫你",
        ],
    )
}

fn running_lines() -> (r: Vec<String>)
    ensures
        strings_view(r@) == running_lines_spec(),
{
    to_strings(
        &[
            "跑起来~",
            "执行中",
            "冲冲冲",
            "跑跑跑",
            "命令跑起来",
            "等结果中",
            "跑着呢",
            "执行跑起来",
            "跑完叫你",
            "马上好",
        ],
    )
}

fn searching_lines() -> (r: Vec<String>)
    ensures
        strings_view(r@) == searching_lines_spec(),
{
    to_strings(
        &[
            "让本猪看看代码",
            "翻翻文件",
            "搜一搜",
            "查查去",
            "找找看",
            "读读读",
            "看看有啥",
            "本猪去查",
            "找找",
            "搜搜",
        ],
    )
}

fn web_search_lines() -> (r: Vec<String>)
    ensures
        strings_view(r@) == web_search_lines_spec(),
{
    to_strings(
        &[
            "开始网上冲浪",
            "冲浪中",
            "上网查查",
            "让本猪看看",
            "网上搜搜",
            "冲浪~",
            "上网去",
            "查查网上",
            "冲浪去",
            "上网冲浪",
        ],
    )
}

fn error_lines() -> (r: Vec<String>)
    ensures
        strings_view(r@) == error_lines_spec(),
{
    to_strings(
        &[
            "哎呀",
            "翻车了",
            "没事没事",
            "嗐",
            "翻车现场",
            "不慌不慌",
            "再来一次",
            "出错了诶",
            "本猪也懵了",
            "摸摸头",
        ],
    )
}

fn success_lines() -> (r: Vec<String>)
    ensures
        strings_view(r@) == success_lines_spec(),
{
    to_strings(
        &[
            "搞定~",
            "棒棒的",
            "嘿嘿",
            "完成~",
            "好耶",
            "稳了",
            "本猪厉害吧",
            "搞定搞定",
            "收工",
            "完美",
        ],
    )
}

fn sleeping_lines() -> (r: Vec<String>)
    ensures
        strings_view(r@) == sleeping_lines_spec(),
{
    to_strings(
        &[
            "zzZ",
            "呼...",
            "睡一会儿",
            "困了",
            "打盹中",
            "zzz",
            "歇会儿",
            "眯一下",
            "呼噜呼噜",
            "睡香香",
        ],
    )
}

fn error_subagent_lines() -> (r: Vec<String>)
    ensures
        strings_view(r@) == error_subagent_lines_spec(),
{
    to_strings(
        &[
            "分身也绊了",
            "那边翻车了",
            "子任务报错",
            "小号翻车",
            "并行里有个坑",
        ],
    )
}

fn success_subagent_lines() -> (r: Vec<String>)
    ensures
        strings_view(r@) == success_subagent_lines_spec(),
{
    to_strings(
        &[
            "分身收工",
            "那边搞定了",
            "子任务过线",
            "小号立功",
        ],
    )
}

/// The built-in lines, used where the user's file is missing or unreadable.
pub fn default_quotes() -> (r: QuoteTable)
    ensures
        table_view(r@) == default_table(),
{
    let mut m: QuoteTable = StringHashMap::new();
    m.insert("idle".to_string(), idle_lines());
    m.insert("coding".to_string(), coding_lines());
    m.insert("thinking".to_string(), thinking_lines());
    m.insert("writing".to_string(), writing_lines());
    m.insert("running".to_string(), running_lines());
    m.insert("searching".to_string(), searching_lines());
    m.insert("web-search".to_string(), web_search_lines());
    m.insert("error".to_string(), error_lines());
    m.insert("success".to_string(), success_lines());
    m.insert("sleeping".to_string(), sleeping_lines());
    m.insert("thinking_subagent".to_string(), subagent_lines());
    m.insert("writing_subagent".to_string(), subagent_lines());
    m.insert("running_subagent".to_string(), subagent_lines());
    m.insert("searching_subagent".to_string(), subagent_lines());
    m.insert("web-search_subagent".to_string(), subagent_lines());
    m.insert("error_subagent".to_string(), error_subagent_lines());
    m.insert("success_subagent".to_string(), success_subagent_lines());
    assert(table_view(m@) =~= default_table());
    m
}

/// `serde_json::Error`.
#[verifier::external_type_specification]
#[verifier::external_body]
pub struct ExJsonError(serde_json::Error);

/// The key-to-lines map that `serde_json` reads from a quotes file of these
/// characters; `None` where the text is not a JSON object of string lists.
pub uninterp spec fn parsed_quote_file(json: Seq<char>) -> Option<Map<Seq<char>, Seq<Seq<char>>>>;

pub open spec fn entries_view(es: Seq<(String, Vec<String>)>) -> Seq<(Seq<char>, Seq<Seq<char>>)> {
    es.map_values(|e: (String, Vec<String>)| (e.0@, strings_view(e.1@)))
}

pub open spec fn keys_distinct(es: Seq<(Seq<char>, Seq<Seq<char>>)>) -> bool {
    forall|i: int, j: int| 0 <= i < j < es.len() ==> #[trigger] es[i].0 != #[trigger] es[j].0
}

/// The map that a list of entries with distinct keys spells out.
pub open spec fn entries_map(es: Seq<(Seq<char>, Seq<Seq<char>>)>) -> Map<Seq<char>, Seq<Seq<char>>>
    decreases es.len(),
{
    if es.len() == 0 {
        Map::empty()
    } else {
        entries_map(es.drop_first()).insert(es[0].0, es[0].1)
    }
}

/// Calls `serde_json::from_str::<HashMap<String, Vec<String>>>` on `json` and
/// lists the map's entries in the order the map is walked. The contract claims
/// that the entries have distinct keys and spell out the map named
/// `parsed_quote_file`; it says nothing of their order, which depends on the
/// map's hasher.
#[verifier::external_body]
fn parse_quote_file(json: &str) -> (r: Result<Vec<(String, Vec<String>)>, serde_json::Error>)
    ensures
        match r {
            Ok(es) => keys_distinct(entries_view(es@)) && parsed_quote_file(json@) == Some(
                entries_map(entries_view(es@)),
            ),
            Err(_) => parsed_quote_file(json@) is None,
        },
{
    match serde_json::from_str::<std::collections::HashMap<String, Vec<String>>>(json) {
        Ok(m) => Ok(m.into_iter().collect()),
        Err(e) => Err(e),
    }
}

/// `base` with every non-empty list of `user` laid over it.
pub open spec fn merged_table(
    base: Map<Seq<char>, Seq<Seq<char>>>,
    user: Map<Seq<char>, Seq<Seq<char>>>,
) -> Map<Seq<char>, Seq<Seq<char>>> {
    Map::new(
        |k: Seq<char>| base.contains_key(k) || (user.contains_key(k) && user[k].len() > 0),
        |k: Seq<char>|
            if user.contains_key(k) && user[k].len() > 0 {
                user[k]
            } else {
                base[k]
            },
    )
}

/// The table after laying the entries over `base` from the last to the first,
/// skipping empty lists.
pub open spec fn apply_entries(
    base: Map<Seq<char>, Seq<Seq<char>>>,
    es: Seq<(Seq<char>, Seq<Seq<char>>)>,
) -> Map<Seq<char>, Seq<Seq<char>>>
    decreases es.len(),
{
    if es.len() == 0 {
        base
    } else {
        let t = apply_entries(base, es.drop_first());
        if es[0].1.len() > 0 {
            t.insert(es[0].0, es[0].1)
        } else {
            t
        }
    }
}

proof fn lemma_entries_map_keys(es: Seq<(Seq<char>, Seq<Seq<char>>)>, k: Seq<char>)
    ensures
        entries_map(es).contains_key(k) <==> exists|i: int| 0 <= i < es.len() && es[i].0 == k,
    decreases es.len(),
{
    if es.len() > 0 {
        lemma_entries_map_keys(es.drop_first(), k);
        if exists|i: int| 0 <= i < es.len() && es[i].0 == k {
            let i = choose|i: int| 0 <= i < es.len() && es[i].0 == k;
            if i > 0 {
                assert(es.drop_first()[i - 1].0 == k);
            }
        }
        if exists|i: int| 0 <= i < es.len() - 1 && es.drop_first()[i].0 == k {
            let i = choose|i: int| 0 <= i < es.len() - 1 && es.drop_first()[i].0 == k;
            assert(es[i + 1].0 == k);
        }
    }
}

proof fn lemma_apply_is_merge(
    base: Map<Seq<char>, Seq<Seq<char>>>,
    es: Seq<(Seq<char>, Seq<Seq<char>>)>,
)
    requires
        keys_distinct(es),
    ensures
        apply_entries(base, es) == merged_table(base, entries_map(es)),
    decreases es.len(),
{
    if es.len() == 0 {
        assert(merged_table(base, entries_map(es)) =~= base);
    } else {
        let tail = es.drop_first();
        assert(keys_distinct(tail)) by {
            assert forall|i: int, j: int| 0 <= i < j < tail.len() implies #[trigger] tail[i].0
                != #[trigger] tail[j].0 by {
                assert(tail[i] == es[i + 1]);
                assert(tail[j] == es[j + 1]);
            }
        }
        lemma_apply_is_merge(base, tail);
        lemma_entries_map_keys(tail, es[0].0);
        if entries_map(tail).contains_key(es[0].0) {
            let i = choose|i: int| 0 <= i < tail.len() && tail[i].0 == es[0].0;
            assert(es[i + 1].0 == es[0].0);
        }
        assert(apply_entries(base, es) =~= merged_table(base, entries_map(es)));
    }
}

/// The table from the text of a quotes file: the built-in lines with the
/// file's non-empty lists laid over them; the built-in lines alone where the
/// text cannot be read as such a file.
pub fn quotes_from_json(contents: &str) -> (r: QuoteTable)
    ensures
        table_view(r@) == match parsed_quote_file(contents@) {
            Some(user) => merged_table(default_table(), user),
            None => default_table(),
        },
{
    let mut table = default_quotes();
    match parse_quote_file(contents) {
        Err(_) => table,
        Ok(entries) => {
            let ghost orig = entries_view(entries@);
            let mut entries = entries;
            assert(orig.skip(entries@.len() as int) =~= Seq::<(Seq<char>, Seq<Seq<char>>)>::empty());
            while entries.len() > 0
                invariant
                    entries@.len() <= orig.len(),
                    entries_view(entries@) == orig.take(entries@.len() as int),
                    table_view(table@) == apply_entries(default_table(), orig.skip(entries@.len() as int)),
                decreases entries@.len(),
            {
                let ghost n = entries@.len() as int;
                let ghost before = entries@;
                let (key, lines) = entries.pop().unwrap();
                proof {
                    assert(entries_view(before)[n - 1] == orig[n - 1]);
                    assert(entries_view(entries@) =~= orig.take(n - 1));
                    let rest = orig.skip(n - 1);
                    assert(rest[0] == (key@, strings_view(lines@)));
                    assert(rest.drop_first() =~= orig.skip(n));
                }
                if lines.len() > 0 {
                    table.insert(key, lines);
                    assert(table_view(table@) =~= apply_entries(default_table(), orig.skip(n - 1)));
                }
            }
            proof {
                assert(orig.skip(0) =~= orig);
                lemma_apply_is_merge(default_table(), orig);
            }
            table
        },
    }
}

/// Every mood has built-in lines: with the default table the bubble never
/// falls back to the bare label.
pub proof fn law_every_mood_has_default_lines(mood: PetMood)
    ensures
        default_table().contains_key(mood_class_spec(mood)),
        default_table()[mood_class_spec(mood)].len() > 0,
{
}

/// A pick is one of the mood's lines, or the label where the table has none.
pub proof fn law_pick_is_a_line_or_the_label(
    table: Map<Seq<char>, Seq<Seq<char>>>,
    mood_class: Seq<char>,
    label: Seq<char>,
    nanos: u128,
)
    requires
        table.contains_key(mood_class) ==> table[mood_class].len() <= usize::MAX,
    ensures
        ({
            let r = random_quote_spec(table, mood_class, label, nanos);
            if table.contains_key(mood_class) && table[mood_class].len() > 0 {
                table[mood_class].contains(r)
            } else {
                r == label
            }
        }),
{
    if table.contains_key(mood_class) && table[mood_class].len() > 0 {
        let len = table[mood_class].len() as usize;
        let x = ((nanos ^ (nanos >> 40u128)) ^ (nanos >> 80u128)) as usize;
        assert(x % len < len) by (nonlinear_arith)
            requires
                len > 0,
        ;
        let i = mix_index(nanos, len);
        assert(i < len);
        assert(table[mood_class][i as int] == random_quote_spec(table, mood_class, label, nanos));
    }
}

/// Without sub-agents a pick is a plain pick for the mood.
pub proof fn law_no_subagents_plain_pick(
    table: Map<Seq<char>, Seq<Seq<char>>>,
    mood_class: Seq<char>,
    label: Seq<char>,
    nanos: u128,
)
    ensures
        pick_quote_spec(table, mood_class, label, 0, nanos) == random_quote_spec(
            table,
            mood_class,
            label,
            nanos,
        ),
{
}


/// The keys of the built-in table, as character sequences.
proof fn lemma_default_keys()
    ensures
        "thinking"@ + "_subagent"@ == "thinking_subagent"@,
        "writing"@ + "_subagent"@ == "writing_subagent"@,
        "running"@ + "_subagent"@ == "running_subagent"@,
        "searching"@ + "_subagent"@ == "searching_subagent"@,
        "web-search"@ + "_subagent"@ == "web-search_subagent"@,
        default_table()["thinking_subagent"@] == subagent_lines_spec(),
        default_table()["writing_subagent"@] == subagent_lines_spec(),
        default_table()["running_subagent"@] == subagent_lines_spec(),
        default_table()["searching_subagent"@] == subagent_lines_spec(),
        default_table()["web-search_subagent"@] == subagent_lines_spec(),
        default_table()["error_subagent"@] == error_subagent_lines_spec(),
        default_table().contains_key("thinking_subagent"@),
        default_table().contains_key("writing_subagent"@),
        default_table().contains_key("running_subagent"@),
        default_table().contains_key("searching_subagent"@),
        default_table().contains_key("web-search_subagent"@),
{
    reveal_strlit("idle");
    reveal_strlit("coding");
    reveal_strlit("thinking");
    reveal_strlit("writing");
    reveal_strlit("running");
    reveal_strlit("searching");
    reveal_strlit("web-search");
    reveal_strlit("error");
    reveal_strlit("success");
    reveal_strlit("sleeping");
    reveal_strlit("_subagent");
    reveal_strlit("thinking_subagent");
    reveal_strlit("writing_subagent");
    reveal_strlit("running_subagent");
    reveal_strlit("searching_subagent");
    reveal_strlit("web-search_subagent");
    reveal_strlit("error_subagent");
    reveal_strlit("success_subagent");
    let keys = seq![
        "thinking_subagent"@,
        "writing_subagent"@,
        "running_subagent"@,
        "searching_subagent"@,
        "web-search_subagent"@,
        "error_subagent"@,
        "success_subagent"@,
    ];
    assert forall|a: int, b: int| 0 <= a < b < 7 implies keys[a] != keys[b] by {
        assert(keys[a].len() != keys[b].len() || keys[a][0] != keys[b][0]);
    }
    assert("thinking"@ + "_subagent"@ =~= "thinking_subagent"@);
    assert("writing"@ + "_subagent"@ =~= "writing_subagent"@);
    assert("running"@ + "_subagent"@ =~= "running_subagent"@);
    assert("searching"@ + "_subagent"@ =~= "searching_subagent"@);
    assert("web-search"@ + "_subagent"@ =~= "web-search_subagent"@);
}

/// No line of the shared sub-agent busy list is a sub-agent error line.
proof fn lemma_busy_lines_not_errors()
    ensures
        forall|i: int|
            0 <= i < subagent_lines_spec().len() ==> !error_subagent_lines_spec().contains(
                #[trigger] subagent_lines_spec()[i],
            ),
{
    reveal_strlit("分身干活中");
    reveal_strlit("子任务跑着呢");
    reveal_strlit("那边也在忙");
    reveal_strlit("小号加班中");
    reveal_strlit("分身别摸鱼");
    reveal_strlit("并行冲冲冲");
    reveal_strlit("子猪努力中");
    reveal_strlit("后台在跑");
    reveal_strlit("分身也绊了");
    reveal_strlit("那边翻车了");
    reveal_strlit("子任务报错");
    reveal_strlit("小号翻车");
    reveal_strlit("并行里有个坑");
    assert("分身干活中"@ != "分身也绊了"@) by {
        assert("分身干活中"@.len() != "分身也绊了"@.len() || "分身干活中"@[0] != "分身也绊了"@[0] || "分身干活中"@[2] != "分身也绊了"@[2]);
    }
    assert("分身干活中"@ != "那边翻车了"@) by {
        assert("分身干活中"@.len() != "那边翻车了"@.len() || "分身干活中"@[0] != "那边翻车了"@[0] || "分身干活中"@[2] != "那边翻车了"@[2]);
    }
    assert("分身干活中"@ != "子任务报错"@) by {
        assert("分身干活中"@.len() != "子任务报错"@.len() || "分身干活中"@[0] != "子任务报错"@[0] || "分身干活中"@[2] != "子任务报错"@[2]);
    }
    assert("分身干活中"@ != "小号翻车"@) by {
        assert("分身干活中"@.len() != "小号翻车"@.len() || "分身干活中"@[0] != "小号翻车"@[0] || "分身干活中"@[2] != "小号翻车"@[2]);
    }
    assert("分身干活中"@ != "并行里有个坑"@) by {
        assert("分身干活中"@.len() != "并行里有个坑"@.len() || "分身干活中"@[0] != "并行里有个坑"@[0] || "分身干活中"@[2] != "并行里有个坑"@[2]);
    }
    assert("子任务跑着呢"@ != "分身也绊了"@) by {
        assert("子任务跑着呢"@.len() != "分身也绊了"@.len() || "子任务跑着呢"@[0] != "分身也绊了"@[0] || "子任务跑着呢"@[2] != "分身也绊了"@[2]);
    }
    assert("子任务跑着呢"@ != "那边翻车了"@) by {
        assert("子任务跑着呢"@.len() != "那边翻车了"@.len() || "子任务跑着呢"@[0] != "那边翻车了"@[0] || "子任务跑着呢"@[2] != "那边翻车了"@[2]);
    }
    assert("子任务跑着呢"@ != "子任务报错"@) by {
        assert("子任务跑着呢"@.len() != "子任务报错"@.len() || "子任务跑着呢"@[0] != "子任务报错"@[0] || "子任务跑着呢"@[2] != "子任务报错"@[2]);
    }
    assert("子任务跑着呢"@ != "小号翻车"@) by {
        assert("子任务跑着呢"@.len() != "小号翻车"@.len() || "子任务跑着呢"@[0] != "小号翻车"@[0] || "子任务跑着呢"@[2] != "小号翻车"@[2]);
    }
    assert("子任务跑着呢"@ != "并行里有个坑"@) by {
        assert("子任务跑着呢"@.len() != "并行里有个坑"@.len() || "子任务跑着呢"@[0] != "并行里有个坑"@[0] || "子任务跑着呢"@[2] != "并行里有个坑"@[2]);
    }
    assert("那边也在忙"@ != "分身也绊了"@) by {
        assert("那边也在忙"@.len() != "分身也绊了"@.len() || "那边也在忙"@[0] != "分身也绊了"@[0] || "那边也在忙"@[2] != "分身也绊了"@[2]);
    }
    assert("那边也在忙"@ != "那边翻车了"@) by {
        assert("那边也在忙"@.len() != "那边翻车了"@.len() || "那边也在忙"@[0] != "那边翻车了"@[0] || "那边也在忙"@[2] != "那边翻车了"@[2]);
    }
    assert("那边也在忙"@ != "子任务报错"@) by {
        assert("那边也在忙"@.len() != "子任务报错"@.len() || "那边也在忙"@[0] != "子任务报错"@[0] || "那边也在忙"@[2] != "子任务报错"@[2]);
    }
    assert("那边也在忙"@ != "小号翻车"@) by {
        assert("那边也在忙"@.len() != "小号翻车"@.len() || "那边也在忙"@[0] != "小号翻车"@[0] || "那边也在忙"@[2] != "小号翻车"@[2]);
    }
    assert("那边也在忙"@ != "并行里有个坑"@) by {
        assert("那边也在忙"@.len() != "并行里有个坑"@.len() || "那边也在忙"@[0] != "并行里有个坑"@[0] || "那边也在忙"@[2] != "并行里有个坑"@[2]);
    }
    assert("小号加班中"@ != "分身也绊了"@) by {
        assert("小号加班中"@.len() != "分身也绊了"@.len() || "小号加班中"@[0] != "分身也绊了"@[0] || "小号加班中"@[2] != "分身也绊了"@[2]);
    }
    assert("小号加班中"@ != "那边翻车了"@) by {
        assert("小号加班中"@.len() != "那边翻车了"@.len() || "小号加班中"@[0] != "那边翻车了"@[0] || "小号加班中"@[2] != "那边翻车了"@[2]);
    }
    assert("小号加班中"@ != "子任务报错"@) by {
        assert("小号加班中"@.len() != "子任务报错"@.len() || "小号加班中"@[0] != "子任务报错"@[0] || "小号加班中"@[2] != "子任务报错"@[2]);
    }
    assert("小号加班中"@ != "小号翻车"@) by {
        assert("小号加班中"@.len() != "小号翻车"@.len() || "小号加班中"@[0] != "小号翻车"@[0] || "小号加班中"@[2] != "小号翻车"@[2]);
    }
    assert("小号加班中"@ != "并行里有个坑"@) by {
        assert("小号加班中"@.len() != "并行里有个坑"@.len() || "小号加班中"@[0] != "并行里有个坑"@[0] || "小号加班中"@[2] != "并行里有个坑"@[2]);
    }
    assert("分身别摸鱼"@ != "分身也绊了"@) by {
        assert("分身别摸鱼"@.len() != "分身也绊了"@.len() || "分身别摸鱼"@[0] != "分身也绊了"@[0] || "分身别摸鱼"@[2] != "分身也绊了"@[2]);
    }
    assert("分身别摸鱼"@ != "那边翻车了"@) by {
        assert("分身别摸鱼"@.len() != "那边翻车了"@.len() || "分身别摸鱼"@[0] != "那边翻车了"@[0] || "分身别摸鱼"@[2] != "那边翻车了"@[2]);
    }
    assert("分身别摸鱼"@ != "子任务报错"@) by {
        assert("分身别摸鱼"@.len() != "子任务报错"@.len() || "分身别摸鱼"@[0] != "子任务报错"@[0] || "分身别摸鱼"@[2] != "子任务报错"@[2]);
    }
    assert("分身别摸鱼"@ != "小号翻车"@) by {
        assert("分身别摸鱼"@.len() != "小号翻车"@.len() || "分身别摸鱼"@[0] != "小号翻车"@[0] || "分身别摸鱼"@[2] != "小号翻车"@[2]);
    }
    assert("分身别摸鱼"@ != "并行里有个坑"@) by {
        assert("分身别摸鱼"@.len() != "并行里有个坑"@.len() || "分身别摸鱼"@[0] != "并行里有个坑"@[0] || "分身别摸鱼"@[2] != "并行里有个坑"@[2]);
    }
    assert("并行冲冲冲"@ != "分身也绊了"@) by {
        assert("并行冲冲冲"@.len() != "分身也绊了"@.len() || "并行冲冲冲"@[0] != "分身也绊了"@[0] || "并行冲冲冲"@[2] != "分身也绊了"@[2]);
    }
    assert("并行冲冲冲"@ != "那边翻车了"@) by {
        assert("并行冲冲冲"@.len() != "那边翻车了"@.len() || "并行冲冲冲"@[0] != "那边翻车了"@[0] || "并行冲冲冲"@[2] != "那边翻车了"@[2]);
    }
    assert("并行冲冲冲"@ != "子任务报错"@) by {
        assert("并行冲冲冲"@.len() != "子任务报错"@.len() || "并行冲冲冲"@[0] != "子任务报错"@[0] || "并行冲冲冲"@[2] != "子任务报错"@[2]);
    }
    assert("并行冲冲冲"@ != "小号翻车"@) by {
        assert("并行冲冲冲"@.len() != "小号翻车"@.len() || "并行冲冲冲"@[0] != "小号翻车"@[0] || "并行冲冲冲"@[2] != "小号翻车"@[2]);
    }
    assert("并行冲冲冲"@ != "并行里有个坑"@) by {
        assert("并行冲冲冲"@.len() != "并行里有个坑"@.len() || "并行冲冲冲"@[0] != "并行里有个坑"@[0] || "并行冲冲冲"@[2] != "并行里有个坑"@[2]);
    }
    assert("子猪努力中"@ != "分身也绊了"@) by {
        assert("子猪努力中"@.len() != "分身也绊了"@.len() || "子猪努力中"@[0] != "分身也绊了"@[0] || "子猪努力中"@[2] != "分身也绊了"@[2]);
    }
    assert("子猪努力中"@ != "那边翻车了"@) by {
        assert("子猪努力中"@.len() != "那边翻车了"@.len() || "子猪努力中"@[0] != "那边翻车了"@[0] || "子猪努力中"@[2] != "那边翻车了"@[2]);
    }
    assert("子猪努力中"@ != "子任务报错"@) by {
        assert("子猪努力中"@.len() != "子任务报错"@.len() || "子猪努力中"@[0] != "子任务报错"@[0] || "子猪努力中"@[2] != "子任务报错"@[2]);
    }
    assert("子猪努力中"@ != "小号翻车"@) by {
        assert("子猪努力中"@.len() != "小号翻车"@.len() || "子猪努力中"@[0] != "小号翻车"@[0] || "子猪努力中"@[2] != "小号翻车"@[2]);
    }
    assert("子猪努力中"@ != "并行里有个坑"@) by {
        assert("子猪努力中"@.len() != "并行里有个坑"@.len() || "子猪努力中"@[0] != "并行里有个坑"@[0] || "子猪努力中"@[2] != "并行里有个坑"@[2]);
    }
    assert("后台在跑"@ != "分身也绊了"@) by {
        assert("后台在跑"@.len() != "分身也绊了"@.len() || "后台在跑"@[0] != "分身也绊了"@[0] || "后台在跑"@[2] != "分身也绊了"@[2]);
    }
    assert("后台在跑"@ != "那边翻车了"@) by {
        assert("后台在跑"@.len() != "那边翻车了"@.len() || "后台在跑"@[0] != "那边翻车了"@[0] || "后台在跑"@[2] != "那边翻车了"@[2]);
    }
    assert("后台在跑"@ != "子任务报错"@) by {
        assert("后台在跑"@.len() != "子任务报错"@.len() || "后台在跑"@[0] != "子任务报错"@[0] || "后台在跑"@[2] != "子任务报错"@[2]);
    }
    assert("后台在跑"@ != "小号翻车"@) by {
        assert("后台在跑"@.len() != "小号翻车"@.len() || "后台在跑"@[0] != "小号翻车"@[0] || "后台在跑"@[2] != "小号翻车"@[2]);
    }
    assert("后台在跑"@ != "并行里有个坑"@) by {
        assert("后台在跑"@.len() != "并行里有个坑"@.len() || "后台在跑"@[0] != "并行里有个坑"@[0] || "后台在跑"@[2] != "并行里有个坑"@[2]);
    }
    let busy = subagent_lines_spec();
    let err = error_subagent_lines_spec();
    assert forall|i: int| 0 <= i < busy.len() implies !err.contains(#[trigger] busy[i]) by {
        assert forall|j: int| 0 <= j < err.len() implies err[j] != busy[i] by {}
    }
}

/// While sub-agents run, the built-in table gives every busy mood (thinking,
/// writing, running, searching, web search) a line of one shared sub-agent
/// busy list, the same for all five, and never a sub-agent error line.
pub proof fn law_busy_moods_share_subagent_lines(
    mood_class: Seq<char>,
    label: Seq<char>,
    depth: u32,
    nanos: u128,
)
    requires
        mood_class == "thinking"@ || mood_class == "writing"@ || mood_class == "running"@
            || mood_class == "searching"@ || mood_class == "web-search"@,
        depth > 0,
    ensures
        default_table()[mood_class + "_subagent"@] == default_table()["running_subagent"@],
        default_table()[mood_class + "_subagent"@].contains(
            pick_quote_spec(default_table(), mood_class, label, depth, nanos),
        ),
        !default_table()["error_subagent"@].contains(
            pick_quote_spec(default_table(), mood_class, label, depth, nanos),
        ),
{
    lemma_default_keys();
    lemma_busy_lines_not_errors();
    let lines = subagent_lines_spec();
    assert(lines.len() == 8);
    let i = mix_index(nanos, 8usize);
    assert(i < 8) by {
        let x = ((nanos ^ (nanos >> 40u128)) ^ (nanos >> 80u128)) as usize;
        assert(x % 8 < 8) by (nonlinear_arith);
    }
    assert(pick_quote_spec(default_table(), mood_class, label, depth, nanos) == lines[i as int]);
}

/// While sub-agents run, the built-in table gives an erring pet a sub-agent
/// error line, never a line of the shared sub-agent busy list.
pub proof fn law_error_mood_gets_subagent_error_lines(label: Seq<char>, depth: u32, nanos: u128)
    requires
        depth > 0,
    ensures
        default_table()["error_subagent"@].contains(
            pick_quote_spec(default_table(), "error"@, label, depth, nanos),
        ),
        !default_table()["running_subagent"@].contains(
            pick_quote_spec(default_table(), "error"@, label, depth, nanos),
        ),
{
    lemma_default_keys();
    lemma_busy_lines_not_errors();
    reveal_strlit("error");
    reveal_strlit("_subagent");
    reveal_strlit("error_subagent");
    assert("error"@ + "_subagent"@ =~= "error_subagent"@);
    let lines = error_subagent_lines_spec();
    assert(lines.len() == 5);
    let i = mix_index(nanos, 5usize);
    assert(i < 5) by {
        let x = ((nanos ^ (nanos >> 40u128)) ^ (nanos >> 80u128)) as usize;
        assert(x % 5 < 5) by (nonlinear_arith);
    }
    let r = lines[i as int];
    assert(pick_quote_spec(default_table(), "error"@, label, depth, nanos) == r);
    let busy = subagent_lines_spec();
    if busy.contains(r) {
        let k = choose|k: int| 0 <= k < busy.len() && busy[k] == r;
        assert(!lines.contains(busy[k]));
    }
}
} // verus!

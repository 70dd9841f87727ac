//! The localised texts of the command-line interface and placeholder
//! substitution.
use vstd::prelude::*;
use std::path::PathBuf;
use crate::text::{replace_all, replaced, str_eq};

verus! {

/// The language of the interface texts.
#[derive(Clone, Copy, Debug, PartialEq, Eq, Structural)]
pub enum Lang {
    En,
    Ja,
}

impl Default for Lang {
    fn default() -> (r: Lang)
        ensures
            r == Lang::En,
    {
        Lang::En
    }
}

/// The text of `key` in `lang`; "[unknown message]" for an unknown key.
pub open spec fn message_of(key: Seq<char>, lang: Lang) -> Seq<char> {
    if key == "summon.already_exists_with_cwd"@ {
        match lang {
            Lang::En => "Already summoned at {cwd}.\nRun `ovld unsummon` first."@,
            Lang::Ja => "既に {cwd} で召喚されています。\n`ovld unsummon` で還送してから再召喚してください。"@,
        }
    } else if key == "summon.already_exists"@ {
        match lang {
            Lang::En => "Session '{name}' already exists.\nRun `ovld unsummon` first."@,
            Lang::Ja => "既存セッション '{name}' があります。\n`ovld unsummon` で還送してから再召喚してください。"@,
        }
    } else if key == "summon.starting"@ {
        match lang {
            Lang::En => "Summoning the army at {cwd}..."@,
            Lang::Ja => "{cwd} で魔王軍を召喚中..."@,
        }
    } else if key == "summon.ritual_files"@ {
        match lang {
            Lang::En => "Ritual files: {path}"@,
            Lang::Ja => "儀式ファイル: {path}"@,
        }
    } else if key == "summon.session_ended"@ {
        match lang {
            Lang::En => "Session '{name}' has ended."@,
            Lang::Ja => "セッション '{name}' が終了しました。"@,
        }
    } else if key == "unsummon.not_found"@ {
        match lang {
            Lang::En => "Session '{name}' not found. Nothing to unsummon."@,
            Lang::Ja => "セッション '{name}' が見つかりません。還送対象なし。"@,
        }
    } else if key == "unsummon.confirm"@ {
        match lang {
            Lang::En => "Unsummon session '{name}'? [y/N] "@,
            Lang::Ja => "セッション '{name}' を還送しますか？ [y/N] "@,
        }
    } else if key == "unsummon.cancelled"@ {
        match lang {
            Lang::En => "Cancelled. The army stands strong."@,
            Lang::Ja => "中止しました。魔王軍は健在です。"@,
        }
    } else if key == "unsummon.in_progress"@ {
        match lang {
            Lang::En => "Unsummoning session '{name}'..."@,
            Lang::Ja => "セッション '{name}' を還送中..."@,
        }
    } else if key == "unsummon.success"@ {
        match lang {
            Lang::En => "Army unsummoned. Session '{name}' terminated."@,
            Lang::Ja => "魔王軍を還送しました。セッション '{name}' を終了しました。"@,
        }
    } else if key == "status.header"@ {
        match lang {
            Lang::En => "=== Army Status ==="@,
            Lang::Ja => "=== 魔王軍ステータス ==="@,
        }
    } else if key == "status.session"@ {
        match lang {
            Lang::En => "Session:"@,
            Lang::Ja => "セッション:"@,
        }
    } else if key == "status.state"@ {
        match lang {
            Lang::En => "State:"@,
            Lang::Ja => "状態:"@,
        }
    } else if key == "status.active"@ {
        match lang {
            Lang::En => "ACTIVE"@,
            Lang::Ja => "展開中"@,
        }
    } else if key == "status.not_summoned"@ {
        match lang {
            Lang::En => "NOT SUMMONED"@,
            Lang::Ja => "未召喚"@,
        }
    } else if key == "status.cwd"@ {
        match lang {
            Lang::En => "Working dir:"@,
            Lang::Ja => "作業場所:"@,
        }
    } else if key == "status.started_at"@ {
        match lang {
            Lang::En => "Summoned at:"@,
            Lang::Ja => "召喚時刻:"@,
        }
    } else if key == "status.hint_summon"@ {
        match lang {
            Lang::En => "Run 'ovld summon' to summon the army."@,
            Lang::Ja => "'ovld summon' で魔王軍を召喚してください。"@,
        }
    } else if key == "status.ranks_header"@ {
        match lang {
            Lang::En => "=== Army Ranks ==="@,
            Lang::Ja => "=== 魔王軍階級 ==="@,
        }
    } else if key == "status.hint_unsummon"@ {
        match lang {
            Lang::En => "Run 'ovld unsummon' to unsummon the session."@,
            Lang::Ja => "'ovld unsummon' でセッションを還送できます。"@,
        }
    } else if key == "init.already_exists"@ {
        match lang {
            Lang::En => "Global config already deployed: {path}"@,
            Lang::Ja => "グローバル設定は既に展開済みです: {path}"@,
        }
    } else if key == "init.hint_force"@ {
        match lang {
            Lang::En => "Use `ovld init --force` to overwrite."@,
            Lang::Ja => "上書きするには `ovld init --force` を使用してください。"@,
        }
    } else if key == "init.success"@ {
        match lang {
            Lang::En => "Global config deployed: {path}"@,
            Lang::Ja => "グローバル設定を展開しました: {path}"@,
        }
    } else {
        "[unknown message]"@
    }
}

/// Looks up the text of `key` in `lang`.
pub fn t(key: &str, lang: Lang) -> (r: &'static str)
    ensures
        r@ == message_of(key@, lang),
{
    if str_eq(key, "summon.already_exists_with_cwd") {
        match lang {
            Lang::En => "Already summoned at {cwd}.\nRun `ovld unsummon` first.",
            Lang::Ja => "既に {cwd} で召喚されています。\n`ovld unsummon` で還送してから再召喚してください。",
        }
    } else if str_eq(key, "summon.already_exists") {
        match lang {
            Lang::En => "Session '{name}' already exists.\nRun `ovld unsummon` first.",
            Lang::Ja => "既存セッション '{name}' があります。\n`ovld unsummon` で還送してから再召喚してください。",
        }
    } else if str_eq(key, "summon.starting") {
        match lang {
            Lang::En => "Summoning the army at {cwd}...",
            Lang::Ja => "{cwd} で魔王軍を召喚中...",
        }
    } else if str_eq(key, "summon.ritual_files") {
        match lang {
            Lang::En => "Ritual files: {path}",
            Lang::Ja => "儀式ファイル: {path}",
        }
    } else if str_eq(key, "summon.session_ended") {
        match lang {
            Lang::En => "Session '{name}' has ended.",
            Lang::Ja => "セッション '{name}' が終了しました。",
        }
    } else if str_eq(key, "unsummon.not_found") {
        match lang {
            Lang::En => "Session '{name}' not found. Nothing to unsummon.",
            Lang::Ja => "セッション '{name}' が見つかりません。還送対象なし。",
        }
    } else if str_eq(key, "unsummon.confirm") {
        match lang {
            Lang::En => "Unsummon session '{name}'? [y/N] ",
            Lang::Ja => "セッション '{name}' を還送しますか？ [y/N] ",
        }
    } else if str_eq(key, "unsummon.cancelled") {
        match lang {
            Lang::En => "Cancelled. The army stands strong.",
            Lang::Ja => "中止しました。魔王軍は健在です。",
        }
    } else if str_eq(key, "unsummon.in_progress") {
        match lang {
            Lang::En => "Unsummoning session '{name}'...",
            Lang::Ja => "セッション '{name}' を還送中...",
        }
    } else if str_eq(key, "unsummon.success") {
        match lang {
            Lang::En => "Army unsummoned. Session '{name}' terminated.",
            Lang::Ja => "魔王軍を還送しました。セッション '{name}' を終了しました。",
        }
    } else if str_eq(key, "status.header") {
        match lang {
            Lang::En => "=== Army Status ===",
            Lang::Ja => "=== 魔王軍ステータス ===",
        }
    } else if str_eq(key, "status.session") {
        match lang {
            Lang::En => "Session:",
            Lang::Ja => "セッション:",
        }
    } else if str_eq(key, "status.state") {
        match lang {
            Lang::En => "State:",
            Lang::Ja => "状態:",
        }
    } else if str_eq(key, "status.active") {
        match lang {
            Lang::En => "ACTIVE",
            Lang::Ja => "展開中",
        }
    } else if str_eq(key, "status.not_summoned") {
        match lang {
            Lang::En => "NOT SUMMONED",
            Lang::Ja => "未召喚",
        }
    } else if str_eq(key, "status.cwd") {
        match lang {
            Lang::En => "Working dir:",
            Lang::Ja => "作業場所:",
        }
    } else if str_eq(key, "status.started_at") {
        match lang {
            Lang::En => "Summoned at:",
            Lang::Ja => "召喚時刻:",
        }
    } else if str_eq(key, "status.hint_summon") {
        match lang {
            Lang::En => "Run 'ovld summon' to summon the army.",
            Lang::Ja => "'ovld summon' で魔王軍を召喚してください。",
        }
    } else if str_eq(key, "status.ranks_header") {
        match lang {
            Lang::En => "=== Army Ranks ===",
            Lang::Ja => "=== 魔王軍階級 ===",
        }
    } else if str_eq(key, "status.hint_unsummon") {
        match lang {
            Lang::En => "Run 'ovld unsummon' to unsummon the session.",
            Lang::Ja => "'ovld unsummon' でセッションを還送できます。",
        }
    } else if str_eq(key, "init.already_exists") {
        match lang {
            Lang::En => "Global config already deployed: {path}",
            Lang::Ja => "グローバル設定は既に展開済みです: {path}",
        }
    } else if str_eq(key, "init.hint_force") {
        match lang {
            Lang::En => "Use `ovld init --force` to overwrite.",
            Lang::Ja => "上書きするには `ovld init --force` を使用してください。",
        }
    } else if str_eq(key, "init.success") {
        match lang {
            Lang::En => "Global config deployed: {path}",
            Lang::Ja => "グローバル設定を展開しました: {path}",
        }
    } else {
        "[unknown message]"
    }
}

/// The placeholder `{key}`.
pub open spec fn placeholder(key: Seq<char>) -> Seq<char> {
    seq!['{'] + key + seq!['}']
}

/// The template with each `{key}` of the arguments, in order, replaced by
/// its value.
pub open spec fn filled(template: Seq<char>, args: Seq<(Seq<char>, Seq<char>)>) -> Seq<char>
    decreases args.len(),
{
    if args.len() == 0 {
        template
    } else {
        replaced(filled(template, args.drop_last()), placeholder(args.last().0), args.last().1)
    }
}

/// The views of a list of key-value arguments.
pub open spec fn args_view(args: Seq<(&str, &str)>) -> Seq<(Seq<char>, Seq<char>)> {
    args.map_values(|p: (&str, &str)| (p.0@, p.1@))
}

/// Replaces the `{name}` placeholders of a template, one argument after the
/// other.
pub fn fmt(template: &str, args: &[(&str, &str)]) -> (r: String)
    ensures
        r@ == filled(template@, args_view(args@)),
{
    let mut result = template.to_owned();
    let mut i: usize = 0;
    while i < args.len()
        invariant
            i <= args@.len(),
            result@ == filled(template@, args_view(args@).subrange(0, i as int)),
        decreases args@.len() - i,
    {
        let (key, value) = args[i];
        let mut pat = String::from_str("{");
        pat.append(key);
        pat.append("}");
        proof {
            reveal_strlit("{");
            reveal_strlit("}");
            assert(pat@ =~= placeholder(key@));
            assert(args_view(args@).subrange(0, i + 1).drop_last() =~= args_view(args@).subrange(0, i as int));
        }
        result = replace_all(result.as_str(), pat.as_str(), value);
        i = i + 1;
    }
    assert(args_view(args@).subrange(0, args@.len() as int) =~= args_view(args@));
    result
}

/// Looks up a text and fills in its placeholders.
pub fn tf(key: &str, lang: Lang, args: &[(&str, &str)]) -> (r: String)
    ensures
        r@ == filled(message_of(key@, lang), args_view(args@)),
{
    fmt(t(key, lang), args)
}

/// Relies on the `Debug` format of `std::path::Path`: the path quoted for
/// display. Nothing more is stated of the text.
#[verifier::external_body]
pub fn path_str(path: &PathBuf) -> String {
    format!("{:?}", path)
}

} // verus!

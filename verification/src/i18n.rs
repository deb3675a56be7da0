//! Internationalization: an English/Japanese message catalog keyed by enum,
//! with runtime language switching. Static strings are returned by reference;
//! [`tf`] does simple positional `{}` substitution for dynamic text.
use vstd::prelude::*;

use crate::text::{
    contains_exec, contains_seq, copy_range, from_chars, lower, push_all, push_str_chars, to_chars,
    to_lower,
};

verus! {

/// UI language.
#[derive(Debug, Clone, Copy, PartialEq, Eq, Structural)]
pub enum Lang {
    /// English.
    En,
    /// Japanese.
    Ja,
}

impl Lang {
    /// The other language.
    pub fn toggled(self) -> (r: Lang)
        ensures
            r == toggled_spec(self),
    {
        match self {
            Lang::En => Lang::Ja,
            Lang::Ja => Lang::En,
        }
    }

    /// A short label for the language indicator.
    pub fn label(self) -> (r: &'static str)
        ensures
            r@ == lang_label(self)@,
    {
        match self {
            Lang::En => "EN",
            Lang::Ja => "JA",
        }
    }
}

/// Toggling the language twice gives the language back.
pub proof fn law_toggle_twice_is_identity(l: Lang)
    ensures
        toggled_spec(toggled_spec(l)) == l,
        toggled_spec(l) != l,
{
}

/// The other language.
pub open spec fn toggled_spec(l: Lang) -> Lang {
    match l {
        Lang::En => Lang::Ja,
        Lang::Ja => Lang::En,
    }
}

/// The indicator label of each language.
pub open spec fn lang_label(l: Lang) -> &'static str {
    match l {
        Lang::En => "EN",
        Lang::Ja => "JA",
    }
}

/// A translatable message key.
#[derive(Debug, Clone, Copy, PartialEq, Eq, Structural)]
pub enum Key {
    // Status line / general chrome.
    StatusHint,
    Loading,
    ErrorPrefix,
    NoDistros,
    FilterApplied,
    // Table columns.
    ColName,
    ColState,
    ColVer,
    ColDefault,
    ColDisk,
    // Detail pane.
    DetailTitle,
    DetailState,
    DetailVersion,
    DetailDefault,
    DetailDisk,
    DetailInnerDisk,
    DetailPath,
    DetailVmMem,
    DetailVmMemTrend,
    // Distro state.
    StateRunning,
    StateStopped,
    StateInstalling,
    StateUnknown,
    VmNotRunning,
    VmSharedNote,
    // Modal titles.
    ConfirmTitle,
    ErrorTitle,
    ProgressTitle,
    HelpTitle,
    QuitTitle,
    FormExportTitle,
    FormImportTitle,
    ConfigEditPrefix,
    ModeForm,
    ModeRaw,
    // Modal hints / bodies.
    ConfirmHintTyped,
    ConfirmHintYesNo,
    ConfirmTypedLine,
    ErrorDismiss,
    ProgressHint,
    InstallTitle,
    InstallHint,
    ConfigSaveHint,
    FormFooter,
    HelpBody,
    QuitPrompt,
    // Form field labels.
    LabelExportPath,
    LabelImportNameOnly,
    LabelImportCustomArchive,
    // Import picker / managed folder.
    PickImportTitle,
    PickImportEmpty,
    PickImportHints,
    ExportFormatHint,
    PromptDeleteArchive,
    DoneDeletedArchive,
    // Prompts.
    PromptTerminate,
    PromptShutdown,
    PromptUnregister,
    PromptImportOverwrite,
    // Transient status messages.
    StatusFetching,
    StatusLoading,
    StatusStarting,
    StatusSettingDefault,
    StatusLaunchingShell,
    StatusCancelling,
    StatusSaving,
    StatusReturnedFrom,
    // Progress titles.
    ProgExporting,
    ProgImporting,
    ProgInstalling,
    // Operation results.
    DoneStarted,
    DoneTerminated,
    DoneShutdown,
    DoneSetDefault,
    DoneUnregistered,
    DoneExported,
    DoneImported,
    DoneInstalled,
    DoneOpenedTab,
    DoneSavedConfig,
    FailOp,
    FailListOnline,
    FailLoadConfig,
    FailSaveConfig,
    WtNotFound,
    ShellBanner,
}

/// Every key, in declaration order.
pub open spec fn all_keys() -> Seq<Key> {
    seq![
        Key::StatusHint,
        Key::Loading,
        Key::ErrorPrefix,
        Key::NoDistros,
        Key::FilterApplied,
        Key::ColName,
        Key::ColState,
        Key::ColVer,
        Key::ColDefault,
        Key::ColDisk,
        Key::DetailTitle,
        Key::DetailState,
        Key::DetailVersion,
        Key::DetailDefault,
        Key::DetailDisk,
        Key::DetailInnerDisk,
        Key::DetailPath,
        Key::DetailVmMem,
        Key::DetailVmMemTrend,
        Key::StateRunning,
        Key::StateStopped,
        Key::StateInstalling,
        Key::StateUnknown,
        Key::VmNotRunning,
        Key::VmSharedNote,
        Key::ConfirmTitle,
        Key::ErrorTitle,
        Key::ProgressTitle,
        Key::HelpTitle,
        Key::QuitTitle,
        Key::FormExportTitle,
        Key::FormImportTitle,
        Key::ConfigEditPrefix,
        Key::ModeForm,
        Key::ModeRaw,
        Key::ConfirmHintTyped,
        Key::ConfirmHintYesNo,
        Key::ConfirmTypedLine,
        Key::ErrorDismiss,
        Key::ProgressHint,
        Key::InstallTitle,
        Key::InstallHint,
        Key::ConfigSaveHint,
        Key::FormFooter,
        Key::HelpBody,
        Key::QuitPrompt,
        Key::LabelExportPath,
        Key::LabelImportNameOnly,
        Key::LabelImportCustomArchive,
        Key::PickImportTitle,
        Key::PickImportEmpty,
        Key::PickImportHints,
        Key::ExportFormatHint,
        Key::PromptDeleteArchive,
        Key::DoneDeletedArchive,
        Key::PromptTerminate,
        Key::PromptShutdown,
        Key::PromptUnregister,
        Key::PromptImportOverwrite,
        Key::StatusFetching,
        Key::StatusLoading,
        Key::StatusStarting,
        Key::StatusSettingDefault,
        Key::StatusLaunchingShell,
        Key::StatusCancelling,
        Key::StatusSaving,
        Key::StatusReturnedFrom,
        Key::ProgExporting,
        Key::ProgImporting,
        Key::ProgInstalling,
        Key::DoneStarted,
        Key::DoneTerminated,
        Key::DoneShutdown,
        Key::DoneSetDefault,
        Key::DoneUnregistered,
        Key::DoneExported,
        Key::DoneImported,
        Key::DoneInstalled,
        Key::DoneOpenedTab,
        Key::DoneSavedConfig,
        Key::FailOp,
        Key::FailListOnline,
        Key::FailLoadConfig,
        Key::FailSaveConfig,
        Key::WtNotFound,
        Key::ShellBanner,
    ]
}

/// Every key occurs in [`all_keys`].
pub proof fn lemma_all_keys_complete(k: Key)
    ensures
        all_keys().contains(k),
{
    let a = all_keys();
    match k {
        Key::StatusHint => assert(a[0] == k),
        Key::Loading => assert(a[1] == k),
        Key::ErrorPrefix => assert(a[2] == k),
        Key::NoDistros => assert(a[3] == k),
        Key::FilterApplied => assert(a[4] == k),
        Key::ColName => assert(a[5] == k),
        Key::ColState => assert(a[6] == k),
        Key::ColVer => assert(a[7] == k),
        Key::ColDefault => assert(a[8] == k),
        Key::ColDisk => assert(a[9] == k),
        Key::DetailTitle => assert(a[10] == k),
        Key::DetailState => assert(a[11] == k),
        Key::DetailVersion => assert(a[12] == k),
        Key::DetailDefault => assert(a[13] == k),
        Key::DetailDisk => assert(a[14] == k),
        Key::DetailInnerDisk => assert(a[15] == k),
        Key::DetailPath => assert(a[16] == k),
        Key::DetailVmMem => assert(a[17] == k),
        Key::DetailVmMemTrend => assert(a[18] == k),
        Key::StateRunning => assert(a[19] == k),
        Key::StateStopped => assert(a[20] == k),
        Key::StateInstalling => assert(a[21] == k),
        Key::StateUnknown => assert(a[22] == k),
        Key::VmNotRunning => assert(a[23] == k),
        Key::VmSharedNote => assert(a[24] == k),
        Key::ConfirmTitle => assert(a[25] == k),
        Key::ErrorTitle => assert(a[26] == k),
        Key::ProgressTitle => assert(a[27] == k),
        Key::HelpTitle => assert(a[28] == k),
        Key::QuitTitle => assert(a[29] == k),
        Key::FormExportTitle => assert(a[30] == k),
        Key::FormImportTitle => assert(a[31] == k),
        Key::ConfigEditPrefix => assert(a[32] == k),
        Key::ModeForm => assert(a[33] == k),
        Key::ModeRaw => assert(a[34] == k),
        Key::ConfirmHintTyped => assert(a[35] == k),
        Key::ConfirmHintYesNo => assert(a[36] == k),
        Key::ConfirmTypedLine => assert(a[37] == k),
        Key::ErrorDismiss => assert(a[38] == k),
        Key::ProgressHint => assert(a[39] == k),
        Key::InstallTitle => assert(a[40] == k),
        Key::InstallHint => assert(a[41] == k),
        Key::ConfigSaveHint => assert(a[42] == k),
        Key::FormFooter => assert(a[43] == k),
        Key::HelpBody => assert(a[44] == k),
        Key::QuitPrompt => assert(a[45] == k),
        Key::LabelExportPath => assert(a[46] == k),
        Key::LabelImportNameOnly => assert(a[47] == k),
        Key::LabelImportCustomArchive => assert(a[48] == k),
        Key::PickImportTitle => assert(a[49] == k),
        Key::PickImportEmpty => assert(a[50] == k),
        Key::PickImportHints => assert(a[51] == k),
        Key::ExportFormatHint => assert(a[52] == k),
        Key::PromptDeleteArchive => assert(a[53] == k),
        Key::DoneDeletedArchive => assert(a[54] == k),
        Key::PromptTerminate => assert(a[55] == k),
        Key::PromptShutdown => assert(a[56] == k),
        Key::PromptUnregister => assert(a[57] == k),
        Key::PromptImportOverwrite => assert(a[58] == k),
        Key::StatusFetching => assert(a[59] == k),
        Key::StatusLoading => assert(a[60] == k),
        Key::StatusStarting => assert(a[61] == k),
        Key::StatusSettingDefault => assert(a[62] == k),
        Key::StatusLaunchingShell => assert(a[63] == k),
        Key::StatusCancelling => assert(a[64] == k),
        Key::StatusSaving => assert(a[65] == k),
        Key::StatusReturnedFrom => assert(a[66] == k),
        Key::ProgExporting => assert(a[67] == k),
        Key::ProgImporting => assert(a[68] == k),
        Key::ProgInstalling => assert(a[69] == k),
        Key::DoneStarted => assert(a[70] == k),
        Key::DoneTerminated => assert(a[71] == k),
        Key::DoneShutdown => assert(a[72] == k),
        Key::DoneSetDefault => assert(a[73] == k),
        Key::DoneUnregistered => assert(a[74] == k),
        Key::DoneExported => assert(a[75] == k),
        Key::DoneImported => assert(a[76] == k),
        Key::DoneInstalled => assert(a[77] == k),
        Key::DoneOpenedTab => assert(a[78] == k),
        Key::DoneSavedConfig => assert(a[79] == k),
        Key::FailOp => assert(a[80] == k),
        Key::FailListOnline => assert(a[81] == k),
        Key::FailLoadConfig => assert(a[82] == k),
        Key::FailSaveConfig => assert(a[83] == k),
        Key::WtNotFound => assert(a[84] == k),
        Key::ShellBanner => assert(a[85] == k),
    }
}

impl Key {
    /// Every key, in declaration order (used to check catalog completeness).
    pub fn all() -> (v: Vec<Key>)
        ensures
            v@ == all_keys(),
    {
        let v = vec![
            Key::StatusHint,
            Key::Loading,
            Key::ErrorPrefix,
            Key::NoDistros,
            Key::FilterApplied,
            Key::ColName,
            Key::ColState,
            Key::ColVer,
            Key::ColDefault,
            Key::ColDisk,
            Key::DetailTitle,
            Key::DetailState,
            Key::DetailVersion,
            Key::DetailDefault,
            Key::DetailDisk,
            Key::DetailInnerDisk,
            Key::DetailPath,
            Key::DetailVmMem,
            Key::DetailVmMemTrend,
            Key::StateRunning,
            Key::StateStopped,
            Key::StateInstalling,
            Key::StateUnknown,
            Key::VmNotRunning,
            Key::VmSharedNote,
            Key::ConfirmTitle,
            Key::ErrorTitle,
            Key::ProgressTitle,
            Key::HelpTitle,
            Key::QuitTitle,
            Key::FormExportTitle,
            Key::FormImportTitle,
            Key::ConfigEditPrefix,
            Key::ModeForm,
            Key::ModeRaw,
            Key::ConfirmHintTyped,
            Key::ConfirmHintYesNo,
            Key::ConfirmTypedLine,
            Key::ErrorDismiss,
            Key::ProgressHint,
            Key::InstallTitle,
            Key::InstallHint,
            Key::ConfigSaveHint,
            Key::FormFooter,
            Key::HelpBody,
            Key::QuitPrompt,
            Key::LabelExportPath,
            Key::LabelImportNameOnly,
            Key::LabelImportCustomArchive,
            Key::PickImportTitle,
            Key::PickImportEmpty,
            Key::PickImportHints,
            Key::ExportFormatHint,
            Key::PromptDeleteArchive,
            Key::DoneDeletedArchive,
            Key::PromptTerminate,
            Key::PromptShutdown,
            Key::PromptUnregister,
            Key::PromptImportOverwrite,
            Key::StatusFetching,
            Key::StatusLoading,
            Key::StatusStarting,
            Key::StatusSettingDefault,
            Key::StatusLaunchingShell,
            Key::StatusCancelling,
            Key::StatusSaving,
            Key::StatusReturnedFrom,
            Key::ProgExporting,
            Key::ProgImporting,
            Key::ProgInstalling,
            Key::DoneStarted,
            Key::DoneTerminated,
            Key::DoneShutdown,
            Key::DoneSetDefault,
            Key::DoneUnregistered,
            Key::DoneExported,
            Key::DoneImported,
            Key::DoneInstalled,
            Key::DoneOpenedTab,
            Key::DoneSavedConfig,
            Key::FailOp,
            Key::FailListOnline,
            Key::FailLoadConfig,
            Key::FailSaveConfig,
            Key::WtNotFound,
            Key::ShellBanner,
        ];
        assert(v@ =~= all_keys());
        v
    }
}

/// The (English, Japanese) pair of each key.
pub open spec fn catalog(key: Key) -> (&'static str, &'static str) {
    match key {
        Key::StatusHint => ("j/k move · Enter shell · s start · x stop · X shutdown · d default · u unreg · e export · m import · i install · c/C config · L lang · / filter · ? help · q/Esc quit", "j/k 移動 · Enter シェル · s 起動 · x 停止 · X 全停止 · d 既定 · u 登録解除 · e エクスポート · m インポート · i インストール · c/C 設定 · L 言語 · / フィルタ · ? ヘルプ · q/Esc 終了"),
        Key::Loading => ("loading…", "読み込み中…"),
        Key::ErrorPrefix => ("error", "エラー"),
        Key::NoDistros => ("No distributions.", "ディストリビューションがありません。"),
        Key::FilterApplied => ("filter: {} · Esc clears", "フィルタ: {} · Esc で解除"),
        Key::ColName => ("NAME", "名前"),
        Key::ColState => ("STATE", "状態"),
        Key::ColVer => ("VER", "Ver"),
        Key::ColDefault => ("DEFAULT", "既定"),
        Key::ColDisk => ("DISK", "ディスク"),
        Key::DetailTitle => ("Detail", "詳細"),
        Key::DetailState => ("State", "状態"),
        Key::DetailVersion => ("Version", "バージョン"),
        Key::DetailDefault => ("Default", "既定"),
        Key::DetailDisk => ("Disk", "ディスク"),
        Key::DetailInnerDisk => ("In-distro", "内部ディスク"),
        Key::DetailPath => ("Path", "パス"),
        Key::DetailVmMem => ("VM Mem", "VMメモリ"),
        Key::DetailVmMemTrend => ("Trend", "推移"),
        Key::StateRunning => ("Running", "実行中"),
        Key::StateStopped => ("Stopped", "停止"),
        Key::StateInstalling => ("Installing", "インストール中"),
        Key::StateUnknown => ("Unknown", "不明"),
        Key::VmNotRunning => ("— (WSL VM not running)", "— (WSL VM 停止中)"),
        Key::VmSharedNote => ("(vmmemWSL, shared by all distros)", "(vmmemWSL, 全ディストロ共有)"),
        Key::ConfirmTitle => (" Confirm ", " 確認 "),
        Key::ErrorTitle => (" Error ", " エラー "),
        Key::ProgressTitle => (" Working ", " 処理中 "),
        Key::HelpTitle => (" Help — keybindings ", " ヘルプ — キー操作 "),
        Key::QuitTitle => (" Quit ", " 終了 "),
        Key::FormExportTitle => (" Export distribution ", " ディストロをエクスポート "),
        Key::FormImportTitle => (" Import distribution ", " ディストロをインポート "),
        Key::ConfigEditPrefix => ("Edit", "編集"),
        Key::ModeForm => ("Form", "フォーム"),
        Key::ModeRaw => ("Raw", "生"),
        Key::ConfirmHintTyped => ("Enter: confirm (must match) · Esc: cancel", "Enter: 確定(一致必須) · Esc: キャンセル"),
        Key::ConfirmHintYesNo => ("Enter / y: confirm · Esc / n: cancel", "Enter / y: 確定 · Esc / n: キャンセル"),
        Key::ConfirmTypedLine => ("type \"{}\" to confirm: {}", "確認のため \"{}\" と入力: {}"),
        Key::ErrorDismiss => ("Press any key to dismiss.", "任意のキーで閉じます。"),
        Key::ProgressHint => ("This may take a while. Esc to cancel.", "時間がかかる場合があります。Esc でキャンセル。"),
        Key::InstallTitle => (" Install — select a distribution ", " インストール — ディストロを選択 "),
        Key::InstallHint => ("type to filter · ↑/↓ select · Enter install · Esc cancel", "入力で絞り込み · ↑/↓ 選択 · Enter インストール · Esc キャンセル"),
        Key::ConfigSaveHint => ("Tab: form/raw · Ctrl+S: save · Esc: cancel", "Tab: フォーム/生 · Ctrl+S: 保存 · Esc: キャンセル"),
        Key::FormFooter => ("Tab / ↑↓: move · Enter: submit · Esc: cancel", "Tab / ↑↓: 移動 · Enter: 実行 · Esc: キャンセル"),
        Key::HelpBody => (
            "\
 j/k · ↑/↓     move selection
 /             filter list (Esc clears)
 Enter         inline shell (exit returns to wslm)
 w             shell in a new Windows Terminal tab
 s             start (boot) the distro
 x             stop (terminate) the distro
 X             shut down the whole WSL VM
 d             set as default
 u             unregister — delete (type name to confirm)
 e             export to the managed folder
 m             import (pick from the managed folder)
 i             install from the online catalog
 c / C         edit .wslconfig / wsl.conf
 L             toggle English / Japanese
 r             refresh now
 ?             this help
 q / Esc       quit  (Ctrl+C too; all ask to confirm)

 Press any key to close.",
            "\
 j/k · ↑/↓     選択を移動
 /             一覧をフィルタ (Esc で解除)
 Enter         インラインシェル (exit で wslm に復帰)
 w             Windows Terminal の新規タブでシェル
 s             起動 (boot)
 x             停止 (terminate)
 X             WSL VM 全体を停止
 d             既定に設定
 u             登録解除 — 削除 (名前入力で確認)
 e             管理フォルダにエクスポート
 m             インポート（管理フォルダから選択）
 i             オンライン一覧からインストール
 c / C         .wslconfig / wsl.conf を編集
 L             英語 / 日本語 切替
 r             今すぐ更新
 ?             このヘルプ
 q / Esc       終了  (Ctrl+C も同様・いずれも確認あり)

 任意のキーで閉じます。",
        ),
        Key::QuitPrompt => ("Quit wslm?\n\nEnter / y: quit · Esc / n: stay", "wslm を終了しますか？\n\nEnter / y: 終了 · Esc / n: 戻る"),
        Key::LabelExportPath => ("Output file name", "出力ファイル名"),
        Key::LabelImportNameOnly => ("New distro name", "新しいディストロ名"),
        Key::LabelImportCustomArchive => ("Source archive path", "元アーカイブのパス"),
        Key::PickImportTitle => (" Import — pick an archive ", " インポート — アーカイブを選択 "),
        Key::PickImportEmpty => ("(no archives in exports\\ — press c for a custom path)", "(exports\\ にアーカイブがありません — c で任意パス)"),
        Key::PickImportHints => ("↑/↓ move · Enter import · c custom · d delete · Esc back", "↑/↓ 移動 · Enter 取込 · c 任意 · d 削除 · Esc 戻る"),
        Key::ExportFormatHint => ("Saved under exports\\; extension picks format (.tar/.tar.gz/.tar.xz/.vhdx)", "exports\\ に保存。拡張子で形式選択 (.tar/.tar.gz/.tar.xz/.vhdx)"),
        Key::PromptDeleteArchive => ("Delete archive '{}'?", "アーカイブ '{}' を削除しますか？"),
        Key::DoneDeletedArchive => ("Deleted '{}'", "'{}' を削除しました"),
        Key::PromptTerminate => ("Terminate (stop) '{}'?", "'{}' を停止しますか？"),
        Key::PromptShutdown => ("Shut down ALL running WSL distributions?", "実行中の全 WSL ディストロを停止しますか？"),
        Key::PromptUnregister => ("PERMANENTLY delete '{}' and ALL its data.", "'{}' とその全データを完全に削除します。"),
        Key::PromptImportOverwrite => ("'{}' already exists. Overwrite it?", "'{}' は既に存在します。上書きしますか？"),
        Key::StatusFetching => ("Fetching available distributions…", "インストール可能なディストロを取得中…"),
        Key::StatusLoading => ("Loading {}…", "{} を読み込み中…"),
        Key::StatusStarting => ("Starting {}…", "{} を起動中…"),
        Key::StatusSettingDefault => ("Setting {} as default…", "{} を既定に設定中…"),
        Key::StatusLaunchingShell => ("Launching '{}' shell…", "'{}' のシェルを起動中…"),
        Key::StatusCancelling => ("Cancelling…", "キャンセル中…"),
        Key::StatusSaving => ("Saving {}…", "{} を保存中…"),
        Key::StatusReturnedFrom => ("Returned from '{}'", "'{}' から復帰しました"),
        Key::ProgExporting => ("Exporting '{}'", "'{}' をエクスポート中"),
        Key::ProgImporting => ("Importing '{}'", "'{}' をインポート中"),
        Key::ProgInstalling => ("Installing '{}'", "'{}' をインストール中"),
        Key::DoneStarted => ("Started {}", "{} を起動しました"),
        Key::DoneTerminated => ("Terminated {}", "{} を停止しました"),
        Key::DoneShutdown => ("WSL shut down", "WSL を全停止しました"),
        Key::DoneSetDefault => ("Set {} as default", "{} を既定に設定しました"),
        Key::DoneUnregistered => ("Unregistered {}", "{} を登録解除しました"),
        Key::DoneExported => ("Exported '{}'", "'{}' をエクスポートしました"),
        Key::DoneImported => ("Imported '{}'", "'{}' をインポートしました"),
        Key::DoneInstalled => ("Installed '{}'", "'{}' をインストールしました"),
        Key::DoneOpenedTab => ("Opened '{}' in a new Windows Terminal tab", "'{}' を Windows Terminal の新規タブで開きました"),
        Key::DoneSavedConfig => ("Saved {} — run `wsl --shutdown` to apply", "{} を保存しました — 反映には `wsl --shutdown` が必要です"),
        Key::FailOp => ("Operation failed: {}", "操作に失敗しました: {}"),
        Key::FailListOnline => ("Failed to list online distros: {}", "オンライン一覧の取得に失敗: {}"),
        Key::FailLoadConfig => ("Failed to load config: {}", "設定の読み込みに失敗: {}"),
        Key::FailSaveConfig => ("Failed to save config: {}", "設定の保存に失敗: {}"),
        Key::WtNotFound => ("Windows Terminal (wt.exe) not found. Press Enter for an inline shell instead.", "Windows Terminal (wt.exe) が見つかりません。Enter でインラインシェルを使ってください。"),
        Key::ShellBanner => ("Launching WSL shell for '{}' — type 'exit' to return to wslm.", "'{}' の WSL シェルを起動します — 'exit' で wslm に戻ります。"),
    }
}

/// The text of `key` in `lang`.
pub open spec fn text(lang: Lang, key: Key) -> Seq<char> {
    match lang {
        Lang::En => catalog(key).0@,
        Lang::Ja => catalog(key).1@,
    }
}

/// The (English, Japanese) pair for a key.
fn entry(key: Key) -> (r: (&'static str, &'static str))
    ensures
        r == catalog(key),
{
    match key {
        Key::StatusHint => ("j/k move · Enter shell · s start · x stop · X shutdown · d default · u unreg · e export · m import · i install · c/C config · L lang · / filter · ? help · q/Esc quit", "j/k 移動 · Enter シェル · s 起動 · x 停止 · X 全停止 · d 既定 · u 登録解除 · e エクスポート · m インポート · i インストール · c/C 設定 · L 言語 · / フィルタ · ? ヘルプ · q/Esc 終了"),
        Key::Loading => ("loading…", "読み込み中…"),
        Key::ErrorPrefix => ("error", "エラー"),
        Key::NoDistros => ("No distributions.", "ディストリビューションがありません。"),
        Key::FilterApplied => ("filter: {} · Esc clears", "フィルタ: {} · Esc で解除"),
        Key::ColName => ("NAME", "名前"),
        Key::ColState => ("STATE", "状態"),
        Key::ColVer => ("VER", "Ver"),
        Key::ColDefault => ("DEFAULT", "既定"),
        Key::ColDisk => ("DISK", "ディスク"),
        Key::DetailTitle => ("Detail", "詳細"),
        Key::DetailState => ("State", "状態"),
        Key::DetailVersion => ("Version", "バージョン"),
        Key::DetailDefault => ("Default", "既定"),
        Key::DetailDisk => ("Disk", "ディスク"),
        Key::DetailInnerDisk => ("In-distro", "内部ディスク"),
        Key::DetailPath => ("Path", "パス"),
        Key::DetailVmMem => ("VM Mem", "VMメモリ"),
        Key::DetailVmMemTrend => ("Trend", "推移"),
        Key::StateRunning => ("Running", "実行中"),
        Key::StateStopped => ("Stopped", "停止"),
        Key::StateInstalling => ("Installing", "インストール中"),
        Key::StateUnknown => ("Unknown", "不明"),
        Key::VmNotRunning => ("— (WSL VM not running)", "— (WSL VM 停止中)"),
        Key::VmSharedNote => ("(vmmemWSL, shared by all distros)", "(vmmemWSL, 全ディストロ共有)"),
        Key::ConfirmTitle => (" Confirm ", " 確認 "),
        Key::ErrorTitle => (" Error ", " エラー "),
        Key::ProgressTitle => (" Working ", " 処理中 "),
        Key::HelpTitle => (" Help — keybindings ", " ヘルプ — キー操作 "),
        Key::QuitTitle => (" Quit ", " 終了 "),
        Key::FormExportTitle => (" Export distribution ", " ディストロをエクスポート "),
        Key::FormImportTitle => (" Import distribution ", " ディストロをインポート "),
        Key::ConfigEditPrefix => ("Edit", "編集"),
        Key::ModeForm => ("Form", "フォーム"),
        Key::ModeRaw => ("Raw", "生"),
        Key::ConfirmHintTyped => ("Enter: confirm (must match) · Esc: cancel", "Enter: 確定(一致必須) · Esc: キャンセル"),
        Key::ConfirmHintYesNo => ("Enter / y: confirm · Esc / n: cancel", "Enter / y: 確定 · Esc / n: キャンセル"),
        Key::ConfirmTypedLine => ("type \"{}\" to confirm: {}", "確認のため \"{}\" と入力: {}"),
        Key::ErrorDismiss => ("Press any key to dismiss.", "任意のキーで閉じます。"),
        Key::ProgressHint => ("This may take a while. Esc to cancel.", "時間がかかる場合があります。Esc でキャンセル。"),
        Key::InstallTitle => (" Install — select a distribution ", " インストール — ディストロを選択 "),
        Key::InstallHint => ("type to filter · ↑/↓ select · Enter install · Esc cancel", "入力で絞り込み · ↑/↓ 選択 · Enter インストール · Esc キャンセル"),
        Key::ConfigSaveHint => ("Tab: form/raw · Ctrl+S: save · Esc: cancel", "Tab: フォーム/生 · Ctrl+S: 保存 · Esc: キャンセル"),
        Key::FormFooter => ("Tab / ↑↓: move · Enter: submit · Esc: cancel", "Tab / ↑↓: 移動 · Enter: 実行 · Esc: キャンセル"),
        Key::HelpBody => (
            "\
 j/k · ↑/↓     move selection
 /             filter list (Esc clears)
 Enter         inline shell (exit returns to wslm)
 w             shell in a new Windows Terminal tab
 s             start (boot) the distro
 x             stop (terminate) the distro
 X             shut down the whole WSL VM
 d             set as default
 u             unregister — delete (type name to confirm)
 e             export to the managed folder
 m             import (pick from the managed folder)
 i             install from the online catalog
 c / C         edit .wslconfig / wsl.conf
 L             toggle English / Japanese
 r             refresh now
 ?             this help
 q / Esc       quit  (Ctrl+C too; all ask to confirm)

 Press any key to close.",
            "\
 j/k · ↑/↓     選択を移動
 /             一覧をフィルタ (Esc で解除)
 Enter         インラインシェル (exit で wslm に復帰)
 w             Windows Terminal の新規タブでシェル
 s             起動 (boot)
 x             停止 (terminate)
 X             WSL VM 全体を停止
 d             既定に設定
 u             登録解除 — 削除 (名前入力で確認)
 e             管理フォルダにエクスポート
 m             インポート（管理フォルダから選択）
 i             オンライン一覧からインストール
 c / C         .wslconfig / wsl.conf を編集
 L             英語 / 日本語 切替
 r             今すぐ更新
 ?             このヘルプ
 q / Esc       終了  (Ctrl+C も同様・いずれも確認あり)

 任意のキーで閉じます。",
        ),
        Key::QuitPrompt => ("Quit wslm?\n\nEnter / y: quit · Esc / n: stay", "wslm を終了しますか？\n\nEnter / y: 終了 · Esc / n: 戻る"),
        Key::LabelExportPath => ("Output file name", "出力ファイル名"),
        Key::LabelImportNameOnly => ("New distro name", "新しいディストロ名"),
        Key::LabelImportCustomArchive => ("Source archive path", "元アーカイブのパス"),
        Key::PickImportTitle => (" Import — pick an archive ", " インポート — アーカイブを選択 "),
        Key::PickImportEmpty => ("(no archives in exports\\ — press c for a custom path)", "(exports\\ にアーカイブがありません — c で任意パス)"),
        Key::PickImportHints => ("↑/↓ move · Enter import · c custom · d delete · Esc back", "↑/↓ 移動 · Enter 取込 · c 任意 · d 削除 · Esc 戻る"),
        Key::ExportFormatHint => ("Saved under exports\\; extension picks format (.tar/.tar.gz/.tar.xz/.vhdx)", "exports\\ に保存。拡張子で形式選択 (.tar/.tar.gz/.tar.xz/.vhdx)"),
        Key::PromptDeleteArchive => ("Delete archive '{}'?", "アーカイブ '{}' を削除しますか？"),
        Key::DoneDeletedArchive => ("Deleted '{}'", "'{}' を削除しました"),
        Key::PromptTerminate => ("Terminate (stop) '{}'?", "'{}' を停止しますか？"),
        Key::PromptShutdown => ("Shut down ALL running WSL distributions?", "実行中の全 WSL ディストロを停止しますか？"),
        Key::PromptUnregister => ("PERMANENTLY delete '{}' and ALL its data.", "'{}' とその全データを完全に削除します。"),
        Key::PromptImportOverwrite => ("'{}' already exists. Overwrite it?", "'{}' は既に存在します。上書きしますか？"),
        Key::StatusFetching => ("Fetching available distributions…", "インストール可能なディストロを取得中…"),
        Key::StatusLoading => ("Loading {}…", "{} を読み込み中…"),
        Key::StatusStarting => ("Starting {}…", "{} を起動中…"),
        Key::StatusSettingDefault => ("Setting {} as default…", "{} を既定に設定中…"),
        Key::StatusLaunchingShell => ("Launching '{}' shell…", "'{}' のシェルを起動中…"),
        Key::StatusCancelling => ("Cancelling…", "キャンセル中…"),
        Key::StatusSaving => ("Saving {}…", "{} を保存中…"),
        Key::StatusReturnedFrom => ("Returned from '{}'", "'{}' から復帰しました"),
        Key::ProgExporting => ("Exporting '{}'", "'{}' をエクスポート中"),
        Key::ProgImporting => ("Importing '{}'", "'{}' をインポート中"),
        Key::ProgInstalling => ("Installing '{}'", "'{}' をインストール中"),
        Key::DoneStarted => ("Started {}", "{} を起動しました"),
        Key::DoneTerminated => ("Terminated {}", "{} を停止しました"),
        Key::DoneShutdown => ("WSL shut down", "WSL を全停止しました"),
        Key::DoneSetDefault => ("Set {} as default", "{} を既定に設定しました"),
        Key::DoneUnregistered => ("Unregistered {}", "{} を登録解除しました"),
        Key::DoneExported => ("Exported '{}'", "'{}' をエクスポートしました"),
        Key::DoneImported => ("Imported '{}'", "'{}' をインポートしました"),
        Key::DoneInstalled => ("Installed '{}'", "'{}' をインストールしました"),
        Key::DoneOpenedTab => ("Opened '{}' in a new Windows Terminal tab", "'{}' を Windows Terminal の新規タブで開きました"),
        Key::DoneSavedConfig => ("Saved {} — run `wsl --shutdown` to apply", "{} を保存しました — 反映には `wsl --shutdown` が必要です"),
        Key::FailOp => ("Operation failed: {}", "操作に失敗しました: {}"),
        Key::FailListOnline => ("Failed to list online distros: {}", "オンライン一覧の取得に失敗: {}"),
        Key::FailLoadConfig => ("Failed to load config: {}", "設定の読み込みに失敗: {}"),
        Key::FailSaveConfig => ("Failed to save config: {}", "設定の保存に失敗: {}"),
        Key::WtNotFound => ("Windows Terminal (wt.exe) not found. Press Enter for an inline shell instead.", "Windows Terminal (wt.exe) が見つかりません。Enter でインラインシェルを使ってください。"),
        Key::ShellBanner => ("Launching WSL shell for '{}' — type 'exit' to return to wslm.", "'{}' の WSL シェルを起動します — 'exit' で wslm に戻ります。"),
    }
}

/// The translated string for `key` in `lang`.
pub fn t(lang: Lang, key: Key) -> (r: &'static str)
    ensures
        r@ == text(lang, key),
{
    let (en, ja) = entry(key);
    match lang {
        Lang::En => en,
        Lang::Ja => ja,
    }
}

/// Every key has a non-empty text in both languages.
pub proof fn law_every_key_has_both_languages(key: Key)
    ensures
        text(Lang::En, key).len() > 0,
        text(Lang::Ja, key).len() > 0,
{
    match key {
        Key::StatusHint => {
            reveal_strlit("j/k move · Enter shell · s start · x stop · X shutdown · d default · u unreg · e export · m import · i install · c/C config · L lang · / filter · ? help · q/Esc quit");
            reveal_strlit("j/k 移動 · Enter シェル · s 起動 · x 停止 · X 全停止 · d 既定 · u 登録解除 · e エクスポート · m インポート · i インストール · c/C 設定 · L 言語 · / フィルタ · ? ヘルプ · q/Esc 終了");
        },
        Key::Loading => {
            reveal_strlit("loading…");
            reveal_strlit("読み込み中…");
        },
        Key::ErrorPrefix => {
            reveal_strlit("error");
            reveal_strlit("エラー");
        },
        Key::NoDistros => {
            reveal_strlit("No distributions.");
            reveal_strlit("ディストリビューションがありません。");
        },
        Key::FilterApplied => {
            reveal_strlit("filter: {} · Esc clears");
            reveal_strlit("フィルタ: {} · Esc で解除");
        },
        Key::ColName => {
            reveal_strlit("NAME");
            reveal_strlit("名前");
        },
        Key::ColState => {
            reveal_strlit("STATE");
            reveal_strlit("状態");
        },
        Key::ColVer => {
            reveal_strlit("VER");
            reveal_strlit("Ver");
        },
        Key::ColDefault => {
            reveal_strlit("DEFAULT");
            reveal_strlit("既定");
        },
        Key::ColDisk => {
            reveal_strlit("DISK");
            reveal_strlit("ディスク");
        },
        Key::DetailTitle => {
            reveal_strlit("Detail");
            reveal_strlit("詳細");
        },
        Key::DetailState => {
            reveal_strlit("State");
            reveal_strlit("状態");
        },
        Key::DetailVersion => {
            reveal_strlit("Version");
            reveal_strlit("バージョン");
        },
        Key::DetailDefault => {
            reveal_strlit("Default");
            reveal_strlit("既定");
        },
        Key::DetailDisk => {
            reveal_strlit("Disk");
            reveal_strlit("ディスク");
        },
        Key::DetailInnerDisk => {
            reveal_strlit("In-distro");
            reveal_strlit("内部ディスク");
        },
        Key::DetailPath => {
            reveal_strlit("Path");
            reveal_strlit("パス");
        },
        Key::DetailVmMem => {
            reveal_strlit("VM Mem");
            reveal_strlit("VMメモリ");
        },
        Key::DetailVmMemTrend => {
            reveal_strlit("Trend");
            reveal_strlit("推移");
        },
        Key::StateRunning => {
            reveal_strlit("Running");
            reveal_strlit("実行中");
        },
        Key::StateStopped => {
            reveal_strlit("Stopped");
            reveal_strlit("停止");
        },
        Key::StateInstalling => {
            reveal_strlit("Installing");
            reveal_strlit("インストール中");
        },
        Key::StateUnknown => {
            reveal_strlit("Unknown");
            reveal_strlit("不明");
        },
        Key::VmNotRunning => {
            reveal_strlit("— (WSL VM not running)");
            reveal_strlit("— (WSL VM 停止中)");
        },
        Key::VmSharedNote => {
            reveal_strlit("(vmmemWSL, shared by all distros)");
            reveal_strlit("(vmmemWSL, 全ディストロ共有)");
        },
        Key::ConfirmTitle => {
            reveal_strlit(" Confirm ");
            reveal_strlit(" 確認 ");
        },
        Key::ErrorTitle => {
            reveal_strlit(" Error ");
            reveal_strlit(" エラー ");
        },
        Key::ProgressTitle => {
            reveal_strlit(" Working ");
            reveal_strlit(" 処理中 ");
        },
        Key::HelpTitle => {
            reveal_strlit(" Help — keybindings ");
            reveal_strlit(" ヘルプ — キー操作 ");
        },
        Key::QuitTitle => {
            reveal_strlit(" Quit ");
            reveal_strlit(" 終了 ");
        },
        Key::FormExportTitle => {
            reveal_strlit(" Export distribution ");
            reveal_strlit(" ディストロをエクスポート ");
        },
        Key::FormImportTitle => {
            reveal_strlit(" Import distribution ");
            reveal_strlit(" ディストロをインポート ");
        },
        Key::ConfigEditPrefix => {
            reveal_strlit("Edit");
            reveal_strlit("編集");
        },
        Key::ModeForm => {
            reveal_strlit("Form");
            reveal_strlit("フォーム");
        },
        Key::ModeRaw => {
            reveal_strlit("Raw");
            reveal_strlit("生");
        },
        Key::ConfirmHintTyped => {
            reveal_strlit("Enter: confirm (must match) · Esc: cancel");
            reveal_strlit("Enter: 確定(一致必須) · Esc: キャンセル");
        },
        Key::ConfirmHintYesNo => {
            reveal_strlit("Enter / y: confirm · Esc / n: cancel");
            reveal_strlit("Enter / y: 確定 · Esc / n: キャンセル");
        },
        Key::ConfirmTypedLine => {
            reveal_strlit("type \"{}\" to confirm: {}");
            reveal_strlit("確認のため \"{}\" と入力: {}");
        },
        Key::ErrorDismiss => {
            reveal_strlit("Press any key to dismiss.");
            reveal_strlit("任意のキーで閉じます。");
        },
        Key::ProgressHint => {
            reveal_strlit("This may take a while. Esc to cancel.");
            reveal_strlit("時間がかかる場合があります。Esc でキャンセル。");
        },
        Key::InstallTitle => {
            reveal_strlit(" Install — select a distribution ");
            reveal_strlit(" インストール — ディストロを選択 ");
        },
        Key::InstallHint => {
            reveal_strlit("type to filter · ↑/↓ select · Enter install · Esc cancel");
            reveal_strlit("入力で絞り込み · ↑/↓ 選択 · Enter インストール · Esc キャンセル");
        },
        Key::ConfigSaveHint => {
            reveal_strlit("Tab: form/raw · Ctrl+S: save · Esc: cancel");
            reveal_strlit("Tab: フォーム/生 · Ctrl+S: 保存 · Esc: キャンセル");
        },
        Key::FormFooter => {
            reveal_strlit("Tab / ↑↓: move · Enter: submit · Esc: cancel");
            reveal_strlit("Tab / ↑↓: 移動 · Enter: 実行 · Esc: キャンセル");
        },
        Key::HelpBody => {
            reveal_strlit("\
 j/k · ↑/↓     move selection
 /             filter list (Esc clears)
 Enter         inline shell (exit returns to wslm)
 w             shell in a new Windows Terminal tab
 s             start (boot) the distro
 x             stop (terminate) the distro
 X             shut down the whole WSL VM
 d             set as default
 u             unregister — delete (type name to confirm)
 e             export to the managed folder
 m             import (pick from the managed folder)
 i             install from the online catalog
 c / C         edit .wslconfig / wsl.conf
 L             toggle English / Japanese
 r             refresh now
 ?             this help
 q / Esc       quit  (Ctrl+C too; all ask to confirm)

 Press any key to close.");
            reveal_strlit("\
 j/k · ↑/↓     選択を移動
 /             一覧をフィルタ (Esc で解除)
 Enter         インラインシェル (exit で wslm に復帰)
 w             Windows Terminal の新規タブでシェル
 s             起動 (boot)
 x             停止 (terminate)
 X             WSL VM 全体を停止
 d             既定に設定
 u             登録解除 — 削除 (名前入力で確認)
 e             管理フォルダにエクスポート
 m             インポート（管理フォルダから選択）
 i             オンライン一覧からインストール
 c / C         .wslconfig / wsl.conf を編集
 L             英語 / 日本語 切替
 r             今すぐ更新
 ?             このヘルプ
 q / Esc       終了  (Ctrl+C も同様・いずれも確認あり)

 任意のキーで閉じます。");
        },
        Key::QuitPrompt => {
            reveal_strlit("Quit wslm?\n\nEnter / y: quit · Esc / n: stay");
            reveal_strlit("wslm を終了しますか？\n\nEnter / y: 終了 · Esc / n: 戻る");
        },
        Key::LabelExportPath => {
            reveal_strlit("Output file name");
            reveal_strlit("出力ファイル名");
        },
        Key::LabelImportNameOnly => {
            reveal_strlit("New distro name");
            reveal_strlit("新しいディストロ名");
        },
        Key::LabelImportCustomArchive => {
            reveal_strlit("Source archive path");
            reveal_strlit("元アーカイブのパス");
        },
        Key::PickImportTitle => {
            reveal_strlit(" Import — pick an archive ");
            reveal_strlit(" インポート — アーカイブを選択 ");
        },
        Key::PickImportEmpty => {
            reveal_strlit("(no archives in exports\\ — press c for a custom path)");
            reveal_strlit("(exports\\ にアーカイブがありません — c で任意パス)");
        },
        Key::PickImportHints => {
            reveal_strlit("↑/↓ move · Enter import · c custom · d delete · Esc back");
            reveal_strlit("↑/↓ 移動 · Enter 取込 · c 任意 · d 削除 · Esc 戻る");
        },
        Key::ExportFormatHint => {
            reveal_strlit("Saved under exports\\; extension picks format (.tar/.tar.gz/.tar.xz/.vhdx)");
            reveal_strlit("exports\\ に保存。拡張子で形式選択 (.tar/.tar.gz/.tar.xz/.vhdx)");
        },
        Key::PromptDeleteArchive => {
            reveal_strlit("Delete archive '{}'?");
            reveal_strlit("アーカイブ '{}' を削除しますか？");
        },
        Key::DoneDeletedArchive => {
            reveal_strlit("Deleted '{}'");
            reveal_strlit("'{}' を削除しました");
        },
        Key::PromptTerminate => {
            reveal_strlit("Terminate (stop) '{}'?");
            reveal_strlit("'{}' を停止しますか？");
        },
        Key::PromptShutdown => {
            reveal_strlit("Shut down ALL running WSL distributions?");
            reveal_strlit("実行中の全 WSL ディストロを停止しますか？");
        },
        Key::PromptUnregister => {
            reveal_strlit("PERMANENTLY delete '{}' and ALL its data.");
            reveal_strlit("'{}' とその全データを完全に削除します。");
        },
        Key::PromptImportOverwrite => {
            reveal_strlit("'{}' already exists. Overwrite it?");
            reveal_strlit("'{}' は既に存在します。上書きしますか？");
        },
        Key::StatusFetching => {
            reveal_strlit("Fetching available distributions…");
            reveal_strlit("インストール可能なディストロを取得中…");
        },
        Key::StatusLoading => {
            reveal_strlit("Loading {}…");
            reveal_strlit("{} を読み込み中…");
        },
        Key::StatusStarting => {
            reveal_strlit("Starting {}…");
            reveal_strlit("{} を起動中…");
        },
        Key::StatusSettingDefault => {
            reveal_strlit("Setting {} as default…");
            reveal_strlit("{} を既定に設定中…");
        },
        Key::StatusLaunchingShell => {
            reveal_strlit("Launching '{}' shell…");
            reveal_strlit("'{}' のシェルを起動中…");
        },
        Key::StatusCancelling => {
            reveal_strlit("Cancelling…");
            reveal_strlit("キャンセル中…");
        },
        Key::StatusSaving => {
            reveal_strlit("Saving {}…");
            reveal_strlit("{} を保存中…");
        },
        Key::StatusReturnedFrom => {
            reveal_strlit("Returned from '{}'");
            reveal_strlit("'{}' から復帰しました");
        },
        Key::ProgExporting => {
            reveal_strlit("Exporting '{}'");
            reveal_strlit("'{}' をエクスポート中");
        },
        Key::ProgImporting => {
            reveal_strlit("Importing '{}'");
            reveal_strlit("'{}' をインポート中");
        },
        Key::ProgInstalling => {
            reveal_strlit("Installing '{}'");
            reveal_strlit("'{}' をインストール中");
        },
        Key::DoneStarted => {
            reveal_strlit("Started {}");
            reveal_strlit("{} を起動しました");
        },
        Key::DoneTerminated => {
            reveal_strlit("Terminated {}");
            reveal_strlit("{} を停止しました");
        },
        Key::DoneShutdown => {
            reveal_strlit("WSL shut down");
            reveal_strlit("WSL を全停止しました");
        },
        Key::DoneSetDefault => {
            reveal_strlit("Set {} as default");
            reveal_strlit("{} を既定に設定しました");
        },
        Key::DoneUnregistered => {
            reveal_strlit("Unregistered {}");
            reveal_strlit("{} を登録解除しました");
        },
        Key::DoneExported => {
            reveal_strlit("Exported '{}'");
            reveal_strlit("'{}' をエクスポートしました");
        },
        Key::DoneImported => {
            reveal_strlit("Imported '{}'");
            reveal_strlit("'{}' をインポートしました");
        },
        Key::DoneInstalled => {
            reveal_strlit("Installed '{}'");
            reveal_strlit("'{}' をインストールしました");
        },
        Key::DoneOpenedTab => {
            reveal_strlit("Opened '{}' in a new Windows Terminal tab");
            reveal_strlit("'{}' を Windows Terminal の新規タブで開きました");
        },
        Key::DoneSavedConfig => {
            reveal_strlit("Saved {} — run `wsl --shutdown` to apply");
            reveal_strlit("{} を保存しました — 反映には `wsl --shutdown` が必要です");
        },
        Key::FailOp => {
            reveal_strlit("Operation failed: {}");
            reveal_strlit("操作に失敗しました: {}");
        },
        Key::FailListOnline => {
            reveal_strlit("Failed to list online distros: {}");
            reveal_strlit("オンライン一覧の取得に失敗: {}");
        },
        Key::FailLoadConfig => {
            reveal_strlit("Failed to load config: {}");
            reveal_strlit("設定の読み込みに失敗: {}");
        },
        Key::FailSaveConfig => {
            reveal_strlit("Failed to save config: {}");
            reveal_strlit("設定の保存に失敗: {}");
        },
        Key::WtNotFound => {
            reveal_strlit("Windows Terminal (wt.exe) not found. Press Enter for an inline shell instead.");
            reveal_strlit("Windows Terminal (wt.exe) が見つかりません。Enter でインラインシェルを使ってください。");
        },
        Key::ShellBanner => {
            reveal_strlit("Launching WSL shell for '{}' — type 'exit' to return to wslm.");
            reveal_strlit("'{}' の WSL シェルを起動します — 'exit' で wslm に戻ります。");
        },
    }
}

// ---------------------------------------------------------------------------
// Placeholder substitution
// ---------------------------------------------------------------------------
/// Whether `s` holds the placeholder `{}` at `i`.
pub open spec fn brace_at(s: Seq<char>, i: int) -> bool {
    0 <= i && i + 1 < s.len() && s[i] == '{' && s[i + 1] == '}'
}

/// The position of the first `{}` in `s`, or `s.len()` when there is none.
pub open spec fn brace_pos(s: Seq<char>) -> nat
    decreases s.len(),
{
    if s.len() < 2 {
        s.len()
    } else if s[0] == '{' && s[1] == '}' {
        0
    } else {
        1 + brace_pos(s.drop_first())
    }
}

/// `s` with its placeholders filled in order: the first `{}` of `s` by
/// `args[0]`, the next by `args[1]`, and so on; a placeholder with no argument
/// left stays `{}`, and arguments beyond the placeholders are ignored. Text
/// that comes from an argument is never searched for placeholders.
pub open spec fn fill(s: Seq<char>, args: Seq<Seq<char>>) -> Seq<char>
    decreases s.len(),
{
    let p = brace_pos(s);
    if p >= s.len() {
        s
    } else {
        proof {
            lemma_brace_pos(s);
        }
        let a = if args.len() > 0 {
            args[0]
        } else {
            seq!['{', '}']
        };
        let rest = if args.len() > 0 {
            args.drop_first()
        } else {
            args
        };
        s.take(p as int) + a + fill(s.skip(p + 2int), rest)
    }
}

/// The characters of each argument.
pub open spec fn arg_views(args: Seq<&str>) -> Seq<Seq<char>> {
    args.map_values(|a: &str| a@)
}

/// What `tf(lang, key, args)` produces.
pub open spec fn tf_spec(lang: Lang, key: Key, args: Seq<Seq<char>>) -> Seq<char> {
    fill(text(lang, key), args)
}

pub proof fn lemma_brace_pos(s: Seq<char>)
    ensures
        brace_pos(s) <= s.len(),
        brace_pos(s) < s.len() ==> brace_at(s, brace_pos(s) as int),
        forall|j: int| 0 <= j < brace_pos(s) ==> !#[trigger] brace_at(s, j),
        brace_pos(s) == s.len() ==> forall|j: int| !#[trigger] brace_at(s, j),
    decreases s.len(),
{
    if s.len() >= 2 && !(s[0] == '{' && s[1] == '}') {
        let t = s.drop_first();
        lemma_brace_pos(t);
        assert forall|j: int| 0 < j < s.len() implies brace_at(s, j) == brace_at(t, j - 1) by {
            assert(s[j] == t[j - 1]);
            if j + 1 < s.len() {
                assert(s[j + 1] == t[j]);
            }
        }
        assert(!brace_at(s, 0));
    }
}

pub proof fn lemma_brace_pos_at(s: Seq<char>, i: int)
    requires
        0 <= i <= s.len(),
        i < s.len() ==> brace_at(s, i),
        i == s.len() ==> forall|j: int| !#[trigger] brace_at(s, j),
        forall|j: int| 0 <= j < i ==> !#[trigger] brace_at(s, j),
    ensures
        brace_pos(s) == i,
{
    lemma_brace_pos(s);
    let p = brace_pos(s) as int;
    if p < i {
        assert(brace_at(s, p));
    } else if i < p {
        assert(!brace_at(s, i));
    }
}

/// The position of the first `{}` in `v`, or `v.len()`.
fn find_brace(v: &[char]) -> (r: usize)
    ensures
        r == brace_pos(v@),
{
    let n = v.len();
    if n < 2 {
        proof {
            lemma_brace_pos(v@);
        }
        return n;
    }
    let mut i: usize = 0;
    while i < n - 1
        invariant
            n == v@.len(),
            n >= 2,
            i <= n,
            forall|j: int| 0 <= j < i ==> !#[trigger] brace_at(v@, j),
        decreases n - i,
    {
        if v[i] == '{' && v[i + 1] == '}' {
            proof {
                lemma_brace_pos_at(v@, i as int);
            }
            return i;
        }
        i = i + 1;
    }
    proof {
        assert forall|j: int| !#[trigger] brace_at(v@, j) by {
            if 0 <= j && j >= i {
                assert(j + 1 >= n);
            }
        }
        lemma_brace_pos_at(v@, n as int);
    }
    n
}

/// The translated string with its positional `{}` placeholders replaced by
/// `args`, in order.
pub fn tf(lang: Lang, key: Key, args: &[&str]) -> (r: String)
    ensures
        r@ == tf_spec(lang, key, arg_views(args@)),
{
    let ghost all = arg_views(args@);
    let ghost tpl = text(lang, key);
    let mut rest = to_chars(t(lang, key));
    let mut out: Vec<char> = Vec::new();
    let mut k: usize = 0;
    assert(all.skip(0) == all);
    loop
        invariant_except_break
            out@ + fill(rest@, all.skip(k as int)) == fill(tpl, all),
        invariant
            k <= args@.len(),
            all == arg_views(args@),
        ensures
            out@ == fill(tpl, all),
        decreases rest@.len(),
    {
        let ghost before = rest@;
        let ghost left = all.skip(k as int);
        let p = find_brace(rest.as_slice());
        if p >= rest.len() {
            let ghost prev = out@;
            push_all(&mut out, rest.as_slice());
            assert(fill(before, left) == before);
            assert(out@ == prev + before);
            break;
        }
        proof {
            lemma_brace_pos(before);
        }
        let head = copy_range(rest.as_slice(), 0, p);
        push_all(&mut out, head.as_slice());
        if k < args.len() {
            push_str_chars(&mut out, args[k]);
            proof {
                assert(left[0] == args@[k as int]@);
                assert(left.drop_first() == all.skip(k + 1));
            }
            k = k + 1;
        } else {
            out.push('{');
            out.push('}');
            assert(left.len() == 0);
        }
        rest = copy_range(rest.as_slice(), p + 2, rest.len());
        proof {
            assert(head@ == before.take(p as int));
            assert(rest@ == before.skip(p + 2));
            let a = if left.len() > 0 {
                left[0]
            } else {
                seq!['{', '}']
            };
            assert(fill(before, left) == before.take(p as int) + a + fill(
                before.skip(p + 2),
                all.skip(k as int),
            ));
            assert(out@ + fill(rest@, all.skip(k as int)) =~= fill(tpl, all));
        }
    }
    from_chars(out.as_slice())
}

// ---------------------------------------------------------------------------
// Default language from the locale
// ---------------------------------------------------------------------------
/// Whether a locale value names Japanese (`ja` anywhere, ASCII case-insensitive).
pub open spec fn names_japanese(v: Seq<char>) -> bool {
    contains_seq(lower(v), seq!['j', 'a'])
}

/// Whether a locale variable is set and names Japanese.
pub open spec fn var_names_japanese(o: Option<String>) -> bool {
    match o {
        Some(v) => names_japanese(v@),
        None => false,
    }
}

/// The language the locale variables pick: Japanese when any set variable
/// names it, else English.
pub open spec fn lang_from_locale_spec(values: Seq<Option<String>>) -> Lang {
    if exists|i: int| 0 <= i < values.len() && #[trigger] var_names_japanese(values[i]) {
        Lang::Ja
    } else {
        Lang::En
    }
}

/// The default language from the values of `LANG`, `LC_ALL` and
/// `LC_MESSAGES` (in that order; `None` where unset).
pub fn lang_from_locale(values: &[Option<String>]) -> (r: Lang)
    ensures
        r == lang_from_locale_spec(values@),
{
    let mut ja: Vec<char> = Vec::new();
    ja.push('j');
    ja.push('a');
    assert(ja@ == seq!['j', 'a']);
    let mut i: usize = 0;
    while i < values.len()
        invariant
            i <= values@.len(),
            ja@ == seq!['j', 'a'],
            forall|j: int|
                0 <= j < i ==> !#[trigger] var_names_japanese(values@[j]),
        decreases values@.len() - i,
    {
        match &values[i] {
            Some(v) => {
                let low = to_lower(to_chars(v.as_str()).as_slice());
                if contains_exec(low.as_slice(), ja.as_slice()) {
                    assert(var_names_japanese(values@[i as int]));
                    return Lang::Ja;
                }
            },
            None => {},
        }
        i = i + 1;
    }
    Lang::En
}

} // verus!

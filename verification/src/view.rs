//! What the window shows: its texts and colours, without their layout.
//!
//! The types here are generic in their texts: the window gets strings, and contracts speak of
//! sequences of characters.

use crate::checker::{CheckerState, NtpChecker};
use crate::millis::{Millis, SyncStatus};
use crate::probe::{Findings, NtpResult};
use crate::text::{before, decimal, decimal_text, up_to};
use vstd::prelude::*;
use vstd::string::StringExecFns;

verus! {

// Colours, as red, green and blue from the most significant byte on.

pub const GREEN: u32 = 0x38a169;

pub const ORANGE: u32 = 0xdd6b20;

pub const RED: u32 = 0xe53e3e;

pub const BLUE: u32 = 0x3182ce;

pub const DARK: u32 = 0x2d3748;

pub const SLATE: u32 = 0x4a5568;

pub const GREY: u32 = 0x718096;

pub const PALE: u32 = 0xa0aec0;

/// A coloured text.
#[derive(Debug)]
pub struct Label<S> {
    pub text: S,
    pub color: u32,
}

/// The value on a card.
#[derive(Debug)]
pub enum CardValue<S> {
    Text(S),
    /// A number of milliseconds, to three decimal places, and its unit.
    Milliseconds(Millis),
}

/// A card with two texts: the name of a value, and below it the value in a colour of its own.
#[derive(Debug)]
pub struct InfoCard<S> {
    pub label: Label<S>,
    pub value: CardValue<S>,
    pub value_color: u32,
}

/// The report on a check that went well.
#[derive(Debug)]
pub struct Report<S> {
    pub title: Label<S>,
    pub status: Label<S>,
    pub server_time: InfoCard<S>,
    pub local_time: InfoCard<S>,
    pub offset: InfoCard<S>,
    pub delay: InfoCard<S>,
    pub stratum: InfoCard<S>,
}

/// The lower part of the window.
#[derive(Debug)]
pub enum ResultContent<S> {
    /// A check is under way.
    Loading(Label<S>),
    /// There was no check yet.
    Prompt(Label<S>),
    Failure { title: Label<S>, message: Label<S> },
    Report(Report<S>),
}

/// The panel of the local server.
#[derive(Debug)]
pub struct ServerPanel<S> {
    pub title: Label<S>,
    pub status: Label<S>,
    pub button: S,
}

/// A button that fills in the address of a server.
#[derive(Debug)]
pub struct QuickButton<S> {
    pub id: S,
    pub text: S,
    pub tooltip: S,
    /// What it fills in.
    pub address: S,
}

impl View for Label<String> {
    type V = Label<Seq<char>>;

    open spec fn view(&self) -> Label<Seq<char>> {
        Label { text: self.text@, color: self.color }
    }
}

impl View for CardValue<String> {
    type V = CardValue<Seq<char>>;

    open spec fn view(&self) -> CardValue<Seq<char>> {
        match self {
            CardValue::Text(text) => CardValue::Text(text@),
            CardValue::Milliseconds(millis) => CardValue::Milliseconds(*millis),
        }
    }
}

impl View for InfoCard<String> {
    type V = InfoCard<Seq<char>>;

    open spec fn view(&self) -> InfoCard<Seq<char>> {
        InfoCard { label: self.label@, value: self.value@, value_color: self.value_color }
    }
}

impl View for Report<String> {
    type V = Report<Seq<char>>;

    open spec fn view(&self) -> Report<Seq<char>> {
        Report {
            title: self.title@,
            status: self.status@,
            server_time: self.server_time@,
            local_time: self.local_time@,
            offset: self.offset@,
            delay: self.delay@,
            stratum: self.stratum@,
        }
    }
}

impl View for ResultContent<String> {
    type V = ResultContent<Seq<char>>;

    open spec fn view(&self) -> ResultContent<Seq<char>> {
        match self {
            ResultContent::Loading(label) => ResultContent::Loading(label@),
            ResultContent::Prompt(label) => ResultContent::Prompt(label@),
            ResultContent::Failure { title, message } => ResultContent::Failure {
                title: title@,
                message: message@,
            },
            ResultContent::Report(report) => ResultContent::Report(report@),
        }
    }
}

impl View for ServerPanel<String> {
    type V = ServerPanel<Seq<char>>;

    open spec fn view(&self) -> ServerPanel<Seq<char>> {
        ServerPanel { title: self.title@, status: self.status@, button: self.button@ }
    }
}

impl View for QuickButton<String> {
    type V = QuickButton<Seq<char>>;

    open spec fn view(&self) -> QuickButton<Seq<char>> {
        QuickButton {
            id: self.id@,
            text: self.text@,
            tooltip: self.tooltip@,
            address: self.address@,
        }
    }
}

/// The colour of an offset.
pub open spec fn spec_status_color(status: SyncStatus) -> u32 {
    match status {
        SyncStatus::Excellent => GREEN,
        SyncStatus::Fair => ORANGE,
        SyncStatus::NeedsCalibration => RED,
    }
}

/// The colour of an offset.
#[verifier::when_used_as_spec(spec_status_color)]
pub fn status_color(status: SyncStatus) -> (color: u32)
    ensures
        color == spec_status_color(status),
{
    match status {
        SyncStatus::Excellent => GREEN,
        SyncStatus::Fair => ORANGE,
        SyncStatus::NeedsCalibration => RED,
    }
}

/// What an offset says of the clock.
pub open spec fn spec_status_text(status: SyncStatus) -> Seq<char> {
    match status {
        SyncStatus::Excellent => "同步状态: 极佳"@,
        SyncStatus::Fair => "同步状态: 一般"@,
        SyncStatus::NeedsCalibration => "同步状态: 需校准"@,
    }
}

/// What an offset says of the clock.
pub fn status_text(status: SyncStatus) -> (text: String)
    ensures
        text@ == spec_status_text(status),
{
    match status {
        SyncStatus::Excellent => "同步状态: 极佳".to_string(),
        SyncStatus::Fair => "同步状态: 一般".to_string(),
        SyncStatus::NeedsCalibration => "同步状态: 需校准".to_string(),
    }
}

fn label(text: &str, color: u32) -> (result: Label<String>)
    ensures
        result@ == (Label { text: text@, color }),
{
    Label { text: text.to_string(), color }
}

/// A card with a name, in grey, and a value.
pub open spec fn info_card_of(
    name: Seq<char>,
    value: CardValue<Seq<char>>,
    value_color: u32,
) -> InfoCard<Seq<char>> {
    InfoCard { label: Label { text: name, color: GREY }, value, value_color }
}

/// A card with a name, in grey, and a value.
pub fn render_info_card(name: &str, value: CardValue<String>, value_color: u32) -> (card: InfoCard<
    String,
>)
    ensures
        card@ == info_card_of(name@, value@, value_color),
        card.label.text@ == name@,
        card.label.color == 0x718096,
        card.value == value,
        card.value_color == value_color,
{
    InfoCard { label: label(name, GREY), value, value_color }
}

/// The report on what a check found.
pub open spec fn report_of(found: Findings) -> Report<Seq<char>> {
    let status = found.offset_ms.status();
    Report {
        title: Label { text: "检测报告"@, color: DARK },
        status: Label { text: spec_status_text(status), color: status_color(status) },
        server_time: info_card_of(
            "服务器 NTP 时间"@,
            CardValue::Text(found.server_time),
            DARK,
        ),
        local_time: info_card_of(
            "本地系统时间"@,
            CardValue::Text(found.local_time),
            DARK,
        ),
        offset: info_card_of(
            "时间偏差 (Offset)"@,
            CardValue::Milliseconds(found.offset_ms),
            status_color(status),
        ),
        delay: info_card_of(
            "往返延迟 (RTT)"@,
            CardValue::Milliseconds(found.delay_ms),
            BLUE,
        ),
        stratum: info_card_of(
            "层级 (Stratum)"@,
            CardValue::Text("Stratum "@ + decimal(found.stratum as nat)),
            SLATE,
        ),
    }
}

/// The report on what a check found.
pub fn report(found: &NtpResult) -> (report: Report<String>)
    ensures
        report@ == report_of(found@),
        found.offset_ms.within(50) ==> report.status.text@ == "同步状态: 极佳"@
            && report.status.color == 0x38a169,
        found.offset_ms.within(200) && !found.offset_ms.within(50) ==> report.status.text@
            == "同步状态: 一般"@ && report.status.color == 0xdd6b20,
        !found.offset_ms.within(200) ==> report.status.text@ == "同步状态: 需校准"@
            && report.status.color == 0xe53e3e,
        report.offset.value_color == report.status.color,
        report.offset.value matches CardValue::Milliseconds(offset) && offset == found.offset_ms,
        report.delay.value matches CardValue::Milliseconds(delay) && delay == found.delay_ms,
        report.server_time.value matches CardValue::Text(text) && text@ == found.server_time@,
        report.local_time.value matches CardValue::Text(text) && text@ == found.local_time@,
{
    proof {
        law_report_rates_the_offset(found@);
    }
    let status: SyncStatus = found.offset_ms.status();
    let mut stratum: String = "Stratum ".to_string();
    stratum.append(decimal_text(found.stratum as u32).as_str());
    Report {
        title: label("检测报告", DARK),
        status: Label { text: status_text(status), color: status_color(status) },
        server_time: render_info_card(
            "服务器 NTP 时间",
            CardValue::Text(found.server_time.clone()),
            DARK,
        ),
        local_time: render_info_card(
            "本地系统时间",
            CardValue::Text(found.local_time.clone()),
            DARK,
        ),
        offset: render_info_card(
            "时间偏差 (Offset)",
            CardValue::Milliseconds(found.offset_ms),
            status_color(status),
        ),
        delay: render_info_card("往返延迟 (RTT)", CardValue::Milliseconds(found.delay_ms), BLUE),
        stratum: render_info_card("层级 (Stratum)", CardValue::Text(stratum), SLATE),
    }
}

impl CheckerState {
    /// What the lower part of the window shows.
    pub open spec fn content(self) -> ResultContent<Seq<char>> {
        if self.loading {
            ResultContent::Loading(
                Label { text: "正在向 NTP 服务器发送 UDP 请求，请稍候..."@, color: BLUE },
            )
        } else {
            match self.result {
                None => ResultContent::Prompt(
                    Label {
                        text: "请输入服务器地址，然后点击“开始检查”按钮。"@,
                        color: PALE,
                    },
                ),
                Some(Err(message)) => ResultContent::Failure {
                    title: Label { text: "检测失败"@, color: RED },
                    message: Label { text: message, color: GREY },
                },
                Some(Ok(found)) => ResultContent::Report(report_of(found)),
            }
        }
    }

    /// What the panel of the local server shows.
    pub open spec fn panel(self) -> ServerPanel<Seq<char>> {
        ServerPanel {
            title: Label { text: "本地临时 NTP 服务器 (127.0.0.1:10123)"@, color: DARK },
            status: match self.local_server_error {
                Some(message) => Label { text: "错误: "@ + message, color: RED },
                None => if self.local_server_running {
                    Label {
                        text: "状态: 正在运行 (您可以使用下方 127.0.0.1:10123 进行快捷检测)"@,
                        color: GREEN,
                    }
                } else {
                    Label { text: "状态: 已停止"@, color: GREY }
                },
            },
            button: if self.local_server_running {
                "停止服务"@
            } else {
                "启动服务"@
            },
        }
    }

    /// What stands on the check button.
    pub open spec fn check_button(self) -> Seq<char> {
        if self.loading {
            "检查中..."@
        } else {
            "开始检查"@
        }
    }
}

impl NtpChecker {
    /// What the lower part of the window shows.
    pub fn render_result_content(&self) -> (content: ResultContent<String>)
        ensures
            content@ == self@.content(),
    {
        if self.loading {
            return ResultContent::Loading(
                label("正在向 NTP 服务器发送 UDP 请求，请稍候...", BLUE),
            );
        }
        match &self.result {
            None => ResultContent::Prompt(
                label("请输入服务器地址，然后点击“开始检查”按钮。", PALE),
            ),
            Some(Err(message)) => ResultContent::Failure {
                title: label("检测失败", RED),
                message: label(message.as_str(), GREY),
            },
            Some(Ok(found)) => ResultContent::Report(report(found)),
        }
    }

    /// What the panel of the local server shows.
    pub fn render_server_panel(&self) -> (panel: ServerPanel<String>)
        ensures
            panel@ == self@.panel(),
    {
        let status: Label<String> = match &self.local_server_error {
            Some(message) => {
                let mut text: String = "错误: ".to_string();
                text.append(message.as_str());
                Label { text, color: RED }
            },
            None => if self.local_server_running {
                label(
                    "状态: 正在运行 (您可以使用下方 127.0.0.1:10123 进行快捷检测)",
                    GREEN,
                )
            } else {
                label("状态: 已停止", GREY)
            },
        };
        let button: String = if self.local_server_running {
            "停止服务".to_string()
        } else {
            "启动服务".to_string()
        };
        ServerPanel {
            title: label("本地临时 NTP 服务器 (127.0.0.1:10123)", DARK),
            status,
            button,
        }
    }

    /// What stands on the check button.
    pub fn render_check_button(&self) -> (text: String)
        ensures
            text@ == self@.check_button(),
    {
        if self.loading {
            "检查中...".to_string()
        } else {
            "开始检查".to_string()
        }
    }
}

/// A button that shows the host of an address and fills in the whole.
pub open spec fn quick_button_of(
    tooltip: Seq<char>,
    address: Seq<char>,
    id: Seq<char>,
) -> QuickButton<Seq<char>> {
    QuickButton { id, text: up_to(address, ':'), tooltip, address }
}

/// A button that shows the host of an address and fills in the whole.
pub fn render_quick_button(tooltip: &str, address: &str, id: &str) -> (button: QuickButton<String>)
    ensures
        button@ == quick_button_of(tooltip@, address@, id@),
{
    QuickButton {
        id: id.to_string(),
        text: before(address, ':'),
        tooltip: tooltip.to_string(),
        address: address.to_string(),
    }
}

/// What stands before the buttons of the servers that the window offers.
pub fn render_quick_label() -> (result: Label<String>)
    ensures
        result@ == (Label { text: "快捷源:"@, color: SLATE }),
{
    label("快捷源:", SLATE)
}

/// The servers that the window offers.
pub open spec fn quick_buttons_offered() -> Seq<QuickButton<Seq<char>>> {
    seq![
        quick_button_of("阿里云NTP"@, "ntp.aliyun.com:123"@, "btn_aliyun"@),
        quick_button_of("国家授时中心"@, "ntp.ntsc.ac.cn:123"@, "btn_ntsc"@),
        quick_button_of("经典内网"@, "192.168.1.1:123"@, "btn_cn"@),
        quick_button_of("本地服务器"@, "127.0.0.1:10123"@, "btn_apple"@),
    ]
}

/// The servers that the window offers.
pub fn quick_buttons() -> (buttons: Vec<QuickButton<String>>)
    ensures
        buttons@.map_values(|button: QuickButton<String>| button@) == quick_buttons_offered(),
{
    let mut buttons: Vec<QuickButton<String>> = Vec::new();
    buttons.push(render_quick_button("阿里云NTP", "ntp.aliyun.com:123", "btn_aliyun"));
    buttons.push(render_quick_button("国家授时中心", "ntp.ntsc.ac.cn:123", "btn_ntsc"));
    buttons.push(render_quick_button("经典内网", "192.168.1.1:123", "btn_cn"));
    buttons.push(render_quick_button("本地服务器", "127.0.0.1:10123", "btn_apple"));
    assert(buttons@.map_values(|button: QuickButton<String>| button@)
        =~= quick_buttons_offered());
    buttons
}

/// The address that a button fills in is asked as it stands, and begins with the host that the
/// button shows.
pub proof fn law_quick_buttons_are_ready(i: int)
    requires
        0 <= i < quick_buttons_offered().len(),
    ensures
        ({
            let button = quick_buttons_offered()[i];
            &&& crate::probe::spec_query_target(button.address) == button.address
            &&& button.text.is_prefix_of(button.address)
            &&& !button.text.contains(':')
            &&& crate::text::trimmed(button.address) == button.address
        }),
{
    let address = quick_buttons_offered()[i].address;
    crate::text::law_up_to(address, ':');
    reveal_strlit("ntp.aliyun.com:123");
    reveal_strlit("ntp.ntsc.ac.cn:123");
    reveal_strlit("192.168.1.1:123");
    reveal_strlit("127.0.0.1:10123");
    if i == 0 {
        assert(address[14] == ':');
    } else if i == 1 {
        assert(address[14] == ':');
    } else if i == 2 {
        assert(address[11] == ':');
    } else {
        assert(address[9] == ':');
    }
}

/// A refused address shows as a failure with the message of the check, and a check that went
/// well as a report; while a check is under way neither is seen.
pub proof fn law_result_is_shown(
    state: CheckerState,
    input: Seq<char>,
    result: Result<Findings, Seq<char>>,
)
    requires
        !state.loading,
        crate::text::trimmed(input).len() > 0,
    ensures
        state.check_clicked(input).content() is Loading,
        state.check_clicked(input).check_finished(result).content() == (match result {
            Ok(found) => ResultContent::Report(report_of(found)),
            Err(message) => ResultContent::Failure {
                title: Label { text: "检测失败"@, color: RED },
                message: Label { text: message, color: GREY },
            },
        }),
{
}

/// Each rating has its own words and its own colour: green for excellent, orange for fair and red
/// for a clock that needs calibration.
pub proof fn law_ratings_look_different(a: SyncStatus, b: SyncStatus)
    ensures
        status_color(SyncStatus::Excellent) == 0x38a169,
        status_color(SyncStatus::Fair) == 0xdd6b20,
        status_color(SyncStatus::NeedsCalibration) == 0xe53e3e,
        spec_status_text(SyncStatus::Excellent) == "同步状态: 极佳"@,
        spec_status_text(SyncStatus::Fair) == "同步状态: 一般"@,
        spec_status_text(SyncStatus::NeedsCalibration) == "同步状态: 需校准"@,
        a != b ==> status_color(a) != status_color(b),
        a != b ==> spec_status_text(a) != spec_status_text(b),
{
    reveal_strlit("同步状态: 极佳");
    reveal_strlit("同步状态: 一般");
    reveal_strlit("同步状态: 需校准");
    assert("同步状态: 极佳"@[6] == '极');
    assert("同步状态: 一般"@[6] == '一');
    assert("同步状态: 需校准"@[6] == '需');
}

/// The report says excellent, in green, exactly when the offset found lies less than 50 ms from
/// zero; fair, in orange, exactly when it lies less than 200 ms but not less than 50 ms from
/// zero; and needs calibration, in red, exactly when it does not lie less than 200 ms from zero.
/// The offset has the colour of the rating.
pub proof fn law_report_rates_the_offset(found: Findings)
    ensures
        ({
            let status = report_of(found).status;
            let offset = found.offset_ms;
            &&& status.text == "同步状态: 极佳"@ <==> offset.within(50)
            &&& status.color == 0x38a169 <==> offset.within(50)
            &&& status.text == "同步状态: 一般"@ <==> offset.within(200) && !offset.within(50)
            &&& status.color == 0xdd6b20 <==> offset.within(200) && !offset.within(50)
            &&& status.text == "同步状态: 需校准"@ <==> !offset.within(200)
            &&& status.color == 0xe53e3e <==> !offset.within(200)
            &&& report_of(found).offset.value_color == status.color
        }),
{
    crate::millis::law_status_limits(found.offset_ms);
    law_ratings_look_different(SyncStatus::Excellent, SyncStatus::Fair);
    law_ratings_look_different(SyncStatus::Excellent, SyncStatus::NeedsCalibration);
    law_ratings_look_different(SyncStatus::Fair, SyncStatus::NeedsCalibration);
}

/// The report shows what was found, each under its own name: the two times as they stand, the
/// offset and the delay by their bits, and the stratum by its digits behind a word.
pub proof fn law_report_shows_what_was_found(found: Findings)
    ensures
        ({
            let report = report_of(found);
            &&& report.title.text == "检测报告"@ && report.title.color == 0x2d3748
            &&& report.server_time.label.text == "服务器 NTP 时间"@
            &&& report.server_time.value == CardValue::Text(found.server_time)
            &&& report.server_time.value_color == 0x2d3748
            &&& report.local_time.label.text == "本地系统时间"@
            &&& report.local_time.value == CardValue::Text(found.local_time)
            &&& report.local_time.value_color == 0x2d3748
            &&& report.offset.label.text == "时间偏差 (Offset)"@
            &&& report.offset.value == CardValue::<Seq<char>>::Milliseconds(found.offset_ms)
            &&& report.delay.label.text == "往返延迟 (RTT)"@
            &&& report.delay.value == CardValue::<Seq<char>>::Milliseconds(found.delay_ms)
            &&& report.delay.value_color == 0x3182ce
            &&& report.stratum.label.text == "层级 (Stratum)"@
            &&& report.stratum.value_color == 0x4a5568
            &&& report.stratum.value matches CardValue::Text(text)
            &&& text.take(8) == "Stratum "@
            &&& crate::text::spells(text.skip(8), found.stratum as int)
            &&& text[8] == '0' ==> text.len() == 9
        }),
{
    let number = decimal(found.stratum as nat);
    let text = "Stratum "@ + number;
    reveal_strlit("Stratum ");
    crate::text::law_decimal_is_plain(found.stratum as nat);
    assert(text.take(8) =~= "Stratum "@);
    assert(text.skip(8) =~= number);
}

/// A card names its value in grey and shows the value as it is, in the colour asked for.
pub proof fn law_cards_keep_their_value(
    name: Seq<char>,
    value: CardValue<Seq<char>>,
    value_color: u32,
)
    ensures
        info_card_of(name, value, value_color).label.text == name,
        info_card_of(name, value, value_color).label.color == 0x718096,
        info_card_of(name, value, value_color).value == value,
        info_card_of(name, value, value_color).value_color == value_color,
{
}

/// Reports on different findings differ.
pub proof fn law_reports_tell_findings_apart(a: Findings, b: Findings)
    requires
        report_of(a) == report_of(b),
    ensures
        a == b,
{
    law_report_shows_what_was_found(a);
    law_report_shows_what_was_found(b);
}

/// The lower part of the window says that a check is under way exactly while one is; else it
/// invites to one until there is a result, and then shows the error, word for word, or the report.
pub proof fn law_content_follows_the_check(state: CheckerState)
    ensures
        state.content() is Loading <==> state.loading,
        state.content() is Prompt <==> !state.loading && state.result is None,
        state.content() is Failure <==> !state.loading && (state.result matches Some(result)
            && result is Err),
        state.content() is Report <==> !state.loading && (state.result matches Some(result)
            && result is Ok),
        state.content() matches ResultContent::Loading(label) ==> label.text
            == "正在向 NTP 服务器发送 UDP 请求，请稍候..."@ && label.color == 0x3182ce,
        state.content() matches ResultContent::Prompt(label) ==> label.text
            == "请输入服务器地址，然后点击“开始检查”按钮。"@ && label.color == 0xa0aec0,
        state.content() matches ResultContent::Failure { title, message } ==> {
            &&& title.text == "检测失败"@
            &&& title.color == 0xe53e3e
            &&& message.text == state.result->0->Err_0
            &&& message.color == 0x718096
        },
        state.content() matches ResultContent::Report(report) ==> report == report_of(
            state.result->0->Ok_0,
        ),
{
}

/// The panel shows an error, word for word, if there is one, and else whether the server runs;
/// its button offers to stop the server exactly while it runs, and else to start it.
pub proof fn law_panel_follows_the_server(state: CheckerState)
    ensures
        ({
            let panel = state.panel();
            &&& panel.title.text == "本地临时 NTP 服务器 (127.0.0.1:10123)"@
            &&& panel.title.color == 0x2d3748
            &&& state.local_server_error matches Some(message) ==> {
                let n = panel.status.text.len() - message.len();
                &&& panel.status.text.take(n) == "错误: "@
                &&& panel.status.text.skip(n) == message
                &&& panel.status.color == 0xe53e3e
            }
            &&& state.local_server_error is None && state.local_server_running ==> {
                &&& panel.status.text
                    == "状态: 正在运行 (您可以使用下方 127.0.0.1:10123 进行快捷检测)"@
                &&& panel.status.color == 0x38a169
            }
            &&& state.local_server_error is None && !state.local_server_running ==> {
                &&& panel.status.text == "状态: 已停止"@
                &&& panel.status.color == 0x718096
            }
            &&& state.local_server_running ==> panel.button == "停止服务"@
            &&& !state.local_server_running ==> panel.button == "启动服务"@
        }),
{
    if let Some(message) = state.local_server_error {
        let text = state.panel().status.text;
        let n = text.len() - message.len();
        assert(text.take(n) =~= "错误: "@);
        assert(text.skip(n) =~= message);
    }
}

/// The check button says whether a check is under way.
pub proof fn law_check_button_follows_the_check(state: CheckerState)
    ensures
        state.loading ==> state.check_button() == "检查中..."@,
        !state.loading ==> state.check_button() == "开始检查"@,
{
}

/// A button fills in the address it was made for and shows the part of it before the first
/// colon.
pub proof fn law_buttons_show_the_host(tooltip: Seq<char>, address: Seq<char>, id: Seq<char>)
    ensures
        ({
            let button = quick_button_of(tooltip, address, id);
            let n = button.text.len() as int;
            &&& button.id == id
            &&& button.tooltip == tooltip
            &&& button.address == address
            &&& button.text.is_prefix_of(address)
            &&& !button.text.contains(':')
            &&& n < address.len() ==> address[n] == ':'
        }),
{
    crate::text::law_up_to(address, ':');
}

/// Four servers are offered, among them, last, the local one.
pub proof fn law_servers_offered()
    ensures
        ({
            let buttons = quick_buttons_offered();
            &&& buttons.len() == 4
            &&& buttons[0].address == "ntp.aliyun.com:123"@
            &&& buttons[0].tooltip == "阿里云NTP"@
            &&& buttons[0].id == "btn_aliyun"@
            &&& buttons[1].address == "ntp.ntsc.ac.cn:123"@
            &&& buttons[1].tooltip == "国家授时中心"@
            &&& buttons[1].id == "btn_ntsc"@
            &&& buttons[2].address == "192.168.1.1:123"@
            &&& buttons[2].tooltip == "经典内网"@
            &&& buttons[2].id == "btn_cn"@
            &&& buttons[3].address == "127.0.0.1:10123"@
            &&& buttons[3].tooltip == "本地服务器"@
            &&& buttons[3].id == "btn_apple"@
            &&& buttons[3].address == crate::checker::local_server_address()
        }),
{
}

/// What the window shows, seen as characters, is what it shows, part by part.
pub proof fn law_views_keep_every_part(
    label: Label<String>,
    card: InfoCard<String>,
    report: Report<String>,
    panel: ServerPanel<String>,
    button: QuickButton<String>,
)
    ensures
        label@.text == label.text@ && label@.color == label.color,
        card@.label == card.label@ && card@.value_color == card.value_color,
        card.value matches CardValue::Text(text) ==> card@.value == CardValue::Text(text@),
        card.value matches CardValue::Milliseconds(millis) ==> card@.value == CardValue::<
            Seq<char>,
        >::Milliseconds(millis),
        report@.title == report.title@ && report@.status == report.status@,
        report@.server_time == report.server_time@ && report@.local_time == report.local_time@,
        report@.offset == report.offset@ && report@.delay == report.delay@,
        report@.stratum == report.stratum@,
        panel@.title == panel.title@ && panel@.status == panel.status@ && panel@.button
            == panel.button@,
        button@.id == button.id@ && button@.text == button.text@,
        button@.tooltip == button.tooltip@ && button@.address == button.address@,
{
}

} // verus!

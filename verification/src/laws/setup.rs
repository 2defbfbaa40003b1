//! Laws of the settings, of what the overlay and the tray start with, and of addresses.
use vstd::prelude::*;
use vstd::string::*;
use vstd::utf8::*;

use crate::audio::recording::BehaviorOptions;
use crate::config::{
    self, BehaviorConfig, Config, OverlayConfig, StreamingConfig, WaybarConfig, WaylandConfig,
    WhisperConfig,
};
use crate::laws::texts;
use crate::overlay::app::{ControlUrls, OverlaySettingsUpdate};
use crate::overlay::mic;
use crate::overlay::modes::{EngineMode, InputControlMode, OutputModeState};
use crate::overlay::runtime::{
    self, OverlayRuntimeConfig, OverlayUiState, SaveError, StateFile,
};
use crate::service::{self, ProviderConfig, ServiceError};
use crate::streaming::mistral_realtime::MistralRealtimeClient;
use crate::text::{self, CharClass};
use crate::tray::{self, AudeticTray, StatusResponse, TrayPhase};
use crate::web_url::{self, UrlError};

verus! {

/// `base` is the address without the slashes at its end.
pub open spec fn is_base(address: Seq<char>, base: Seq<char>) -> bool {
    &&& base.len() <= address.len()
    &&& base == address.take(base.len() as int)
    &&& forall|i: int| base.len() <= i < address.len() ==> #[trigger] address[i] == '/'
    &&& base.len() > 0 ==> base.last() != '/'
}

/// `scheme` is what stands before the first colon of an address.
pub open spec fn is_scheme(address: Seq<char>, scheme: Seq<char>) -> bool {
    &&& scheme.len() <= address.len()
    &&& scheme == address.take(scheme.len() as int)
    &&& forall|i: int| 0 <= i < scheme.len() ==> #[trigger] scheme[i] != ':'
    &&& scheme.len() < address.len() ==> address[scheme.len() as int] == ':'
}

proof fn lemma_base(address: Seq<char>, base: Seq<char>)
    requires
        is_base(address, base),
    ensures
        web_url::base_text(address) == base,
{
    let k = CharClass::Slash;
    let b = text::trim_end_class(address, k);
    texts::lemma_end(address, k);
    if b.len() < base.len() {
        assert(k.has(address[base.len() - 1]));
        assert(base.last() == address[base.len() - 1]);
    }
    if b.len() > base.len() {
        assert(address[b.len() - 1] == '/');
    }
    assert(b =~= base);
}

proof fn lemma_scheme(address: Seq<char>, scheme: Seq<char>)
    requires
        is_scheme(address, scheme),
    ensures
        web_url::scheme_of(address) == scheme,
{
    let k = CharClass::Colon;
    assert forall|i: int| 0 <= i < scheme.len() implies !k.has(#[trigger] address[i]) by {
        assert(scheme[i] != ':');
    }
    text::lemma_until_class(address, k, scheme.len() as int);
}

/// The socket of the service has the base address with `wss` for `https` and `ws` for `http`, the
/// path of the realtime endpoint, and the model as its only query pair. A base that cannot be read,
/// and any other scheme, is told.
pub proof fn socket_address_is_built(
    c: MistralRealtimeClient,
    base: Seq<char>,
    parsed: Seq<char>,
    scheme: Seq<char>,
    r: Option<Result<String, UrlError>>,
    direct: Result<String, UrlError>,
)
    requires
        call_ensures(MistralRealtimeClient::checked_websocket_url, (&c,), r),
        call_ensures(MistralRealtimeClient::websocket_url, (&c,), direct),
        is_base(c.api_base_url@, base),
        web_url::url_parsed(base) matches Some(t) ==> t == parsed && is_scheme(parsed, scheme),
    ensures
        ({
            let readable = web_url::url_parsed(base) is Some;
            let tall = readable && parsed.len() + 12 * (c.model@.len() + 100) + 16 > u32::MAX;
            let target = if scheme == "https"@ {
                "wss"@
            } else {
                "ws"@
            };
            let outcome = |x: Result<String, UrlError>|
                if !readable {
                    x == Err::<String, UrlError>(UrlError::InvalidBase)
                } else if scheme != "https"@ && scheme != "http"@ {
                    x matches Err(UrlError::UnsupportedScheme(s)) && s@ == scheme
                } else {
                    x matches Ok(s) && web_url::url_rebuilt(
                        base,
                        target,
                        "/v1/audio/transcriptions/realtime"@,
                        "model"@,
                        c.model@,
                    ) == Some(s@)
                };
            &&& r is None <==> tall
            &&& r matches Some(x) ==> outcome(x)
            &&& outcome(direct)
        }),
{
    lemma_base(c.api_base_url@, base);
    if web_url::url_parsed(base) is Some {
        lemma_scheme(parsed, scheme);
    }
    reveal_strlit("https");
    reveal_strlit("http");
    assert("https"@.len() != "http"@.len());
}

/// The messages name what is wrong with the address.
pub proof fn address_errors_are_told(e: UrlError, r: String)
    requires
        call_ensures(UrlError::message, (&e,), r),
    ensures
        e is InvalidBase ==> r@ == "Invalid Mistral API base URL"@,
        e matches UrlError::UnsupportedScheme(s) ==> r@ == "Unsupported Mistral API URL scheme: "@
            + s@,
        e is SchemeRefused ==> r@ == "Failed to set websocket scheme"@,
{
}

/// The control addresses are those of the event stream with other paths, or, where its address
/// cannot be read, those of the local service.
pub proof fn control_addresses_follow_the_stream(
    url: &str,
    path: &str,
    r: String,
    checked: Option<String>,
    urls: Option<ControlUrls>,
)
    requires
        call_ensures(web_url::derive_control_url, (url, path), r),
        call_ensures(web_url::checked_control_url, (url, path), checked),
        call_ensures(runtime::checked_control_urls, (url,), urls),
    ensures
        match web_url::url_at_path(url@, path@) {
            Some(t) => r@ == t,
            None => r@ == "http://127.0.0.1:3737"@ + path@,
        },
        checked matches Some(s) ==> s@ == r@,
        checked is None <==> (web_url::url_parsed(url@) matches Some(t) && t.len() + 12
            * path@.len() + 16 > u32::MAX),
        urls matches Some(u) ==> at_path(url@, "/toggle"@, u.toggle@) && at_path(
            url@,
            "/start"@,
            u.start@,
        ) && at_path(url@, "/stop"@, u.stop@),
{
}

/// The address of the event stream with another path, or that of the local service.
pub open spec fn at_path(url: Seq<char>, path: Seq<char>, r: Seq<char>) -> bool {
    match web_url::url_at_path(url, path) {
        Some(t) => r == t,
        None => r == "http://127.0.0.1:3737"@ + path,
    }
}

/// A name says something about its device where, capital letters and outer white space aside, it is
/// not one of the standing ones. The label is the start of the name.
pub proof fn telling_names_are_told(
    name: &str,
    core: Seq<char>,
    low: Seq<char>,
    r: bool,
    most: usize,
    label: String,
)
    requires
        call_ensures(mic::is_placeholder_device_name, (name,), r),
        call_ensures(mic::short_mic_label, (name, most), label),
        texts::is_core(name@, core),
        texts::is_lower(core, low),
    ensures
        r <==> low.len() == 0 || low == "default"@ || low == "default input"@ || low
            == "pipewire"@,
        label@.len() == (if name@.len() <= most {
            name@.len() as int
        } else {
            most as int
        }),
        forall|i: int| 0 <= i < label@.len() ==> #[trigger] label@[i] == name@[i],
{
    texts::lemma_trimmed(name@);
    texts::core_is_unique(name@, core, text::trimmed(name@));
    texts::lemma_lowered(core);
    texts::lower_is_unique(core, low, text::lowered(core));
    reveal_strlit("");
    assert(low.len() == 0 ==> low =~= ""@);
}

/// `bare` is the text without the quotes at its ends.
pub open spec fn unquoted(quoted: Seq<char>, bare: Seq<char>) -> bool {
    exists|from: int, to: int|
        0 <= from <= to <= quoted.len() && bare == #[trigger] quoted.subrange(from, to) && (
        forall|i: int|
            0 <= i < from || to <= i < quoted.len() ==> #[trigger] quoted[i] == '"') && (from < to
            ==> quoted[from] != '"' && quoted[to - 1] != '"')
}

/// The first line of a report that gives a telling value for the key decides: the lines before it do
/// not matter, and neither do those behind it.
pub proof fn first_telling_line_decides(
    output: &str,
    rest: &str,
    key: &str,
    line: Seq<char>,
    alone: &str,
    r: Option<String>,
    later: Option<String>,
    one: Option<String>,
)
    requires
        call_ensures(mic::parse_wpctl_field, (output, key), r),
        call_ensures(mic::parse_wpctl_field, (rest, key), later),
        call_ensures(mic::parse_wpctl_field, (alone, key), one),
        !line.contains('\n'),
        line.len() > 0 && line.last() != '\r',
        alone@ == line,
        output@ == line + seq!['\n'] + rest@,
    ensures
        one is Some ==> r is Some && r->0@ == one->0@,
        one is None ==> r is Some == later is Some && (later is Some ==> r->0@ == later->0@),
{
    let k = CharClass::LineFeed;
    let n = line.len() as int;
    assert forall|i: int| 0 <= i < n implies !k.has(#[trigger] output@[i]) by {
        assert(output@[i] == line[i]);
        assert(line.contains(line[i]));
    }
    assert(output@[n] == '\n');
    text::lemma_until_class(output@, k, n);
    assert(output@.take(n) =~= line);
    assert(output@.skip(n + 1) =~= rest@);
    assert forall|i: int| 0 <= i < n implies !k.has(#[trigger] line[i]) by {
        assert(line.contains(line[i]));
    }
    text::lemma_until_class(line, k, n);
    let all = text::lines_of(output@);
    assert(all[0] == line);
    assert(all.drop_first() =~= text::lines_of(rest@));
    let only = text::lines_of(line);
    assert(only =~= seq![line]);
    assert(only.drop_first() =~= Seq::empty());
    reveal_with_fuel(mic::first_value, 2);
}

/// A single line gives its value where it begins with the key and the value tells something.
pub proof fn line_gives_its_value(
    line: &str,
    key: &str,
    core: Seq<char>,
    n: int,
    quoted: Seq<char>,
    bare: Seq<char>,
    value: Seq<char>,
    low: Seq<char>,
    r: Option<String>,
)
    requires
        call_ensures(mic::parse_wpctl_field, (line, key), r),
        !line@.contains('\n') && line@.len() > 0,
        texts::is_core(line@, core),
        0 <= n < core.len() && core[n] == '=',
        forall|i: int| 0 <= i < n ==> #[trigger] core[i] != '=',
        texts::is_core(core.skip(n + 1), quoted),
        unquoted(quoted, bare),
        texts::is_core(bare, value),
        texts::is_lower(value, low),
    ensures
        ({
            let telling = !(low.len() == 0 || low == "default"@ || low == "default input"@ || low
                == "pipewire"@);
            &&& r is Some <==> texts::holds_at(core, key@, 0) && telling
            &&& r matches Some(v) ==> v@ == value
        }),
{
    let lf = CharClass::LineFeed;
    assert forall|i: int| 0 <= i < line@.len() implies !lf.has(#[trigger] line@[i]) by {
        assert(line@.contains(line@[i]));
    }
    text::lemma_until_class(line@, lf, line@.len() as int);
    let only = text::lines_of(line@);
    assert(only =~= seq![line@]);
    assert(only.drop_first() =~= Seq::empty());
    reveal_with_fuel(mic::first_value, 2);
    texts::lemma_trimmed(line@);
    texts::core_is_unique(line@, core, text::trimmed(line@));
    texts::lemma_holds(core, key@);
    let eq = CharClass::Equals;
    assert forall|i: int| 0 <= i < n implies !eq.has(#[trigger] core[i]) by {}
    text::lemma_until_class(core, eq, n);
    let rest = core.skip(n + 1);
    texts::lemma_trimmed(rest);
    texts::core_is_unique(rest, quoted, text::trimmed(rest));
    lemma_unquoted(quoted, bare);
    let b = text::trim_class(quoted, CharClass::Quote);
    texts::lemma_trimmed(b);
    texts::core_is_unique(b, value, text::trimmed(b));
    text::trimming_is_done_once(b, CharClass::WhiteSpace);
    texts::lemma_lowered(value);
    texts::lower_is_unique(value, low, text::lowered(value));
    reveal_strlit("");
    assert(low.len() == 0 ==> low =~= ""@);
}

/// A line without an equals sign, and one that does not begin with the key, gives no value.
pub proof fn other_lines_give_nothing(line: &str, key: &str, core: Seq<char>, r: Option<String>)
    requires
        call_ensures(mic::parse_wpctl_field, (line, key), r),
        !line@.contains('\n'),
        texts::is_core(line@, core),
        !core.contains('=') || !texts::holds_at(core, key@, 0),
    ensures
        r is None,
{
    let lf = CharClass::LineFeed;
    assert forall|i: int| 0 <= i < line@.len() implies !lf.has(#[trigger] line@[i]) by {
        assert(line@.contains(line@[i]));
    }
    text::lemma_until_class(line@, lf, line@.len() as int);
    let only = text::lines_of(line@);
    reveal_with_fuel(mic::first_value, 2);
    if line@.len() > 0 {
        assert(only =~= seq![line@]);
        assert(only.drop_first() =~= Seq::empty());
        texts::lemma_trimmed(line@);
        texts::core_is_unique(line@, core, text::trimmed(line@));
        texts::lemma_holds(core, key@);
        texts::lemma_until(core, CharClass::Equals);
        let n = text::until_class(core, CharClass::Equals) as int;
        if n < core.len() {
            assert(core[n] == '=');
            assert(core.contains('='));
        }
    }
}

proof fn lemma_unquoted(quoted: Seq<char>, bare: Seq<char>)
    requires
        unquoted(quoted, bare),
    ensures
        text::trim_class(quoted, CharClass::Quote) == bare,
{
    let k = CharClass::Quote;
    let t = text::trim_start_class(quoted, k);
    let b = text::trim_class(quoted, k);
    texts::lemma_start(quoted, k);
    texts::lemma_end(t, k);
    let f = quoted.len() - t.len();
    let u = f + b.len();
    assert(b =~= quoted.subrange(f, u));
    let (from, to) = choose|from: int, to: int|
        0 <= from <= to <= quoted.len() && bare == #[trigger] quoted.subrange(from, to) && (
        forall|i: int|
            0 <= i < from || to <= i < quoted.len() ==> #[trigger] quoted[i] == '"') && (from < to
            ==> quoted[from] != '"' && quoted[to - 1] != '"');
    assert forall|i: int| 0 <= i < f || u <= i < quoted.len() implies #[trigger] quoted[i] == '"' by {
        if i < f {
            assert(k.has(quoted[i]));
        } else {
            assert(t[i - f] == quoted[i]);
            assert(k.has(t[i - f]));
        }
    }
    if b.len() > 0 {
        assert(t[0] == quoted[f]);
        assert(!k.has(quoted[f]));
        assert(t[b.len() - 1] == quoted[u - 1]);
        assert(!k.has(t[b.len() - 1]));
        assert(quoted[f] != '"' && quoted[u - 1] != '"');
    }
    if from < to {
        assert(quoted[from] != '"' && quoted[to - 1] != '"');
    }
    assert(b =~= bare);
}

/// The default source is named by its description, else its nickname, else the description of its
/// device; there is no name where the command failed or printed no text.
pub proof fn source_is_named(
    success: bool,
    stdout: Vec<u8>,
    output: &str,
    key1: &str,
    key2: &str,
    key3: &str,
    r1: Option<String>,
    r2: Option<String>,
    r3: Option<String>,
    r: Option<String>,
)
    requires
        call_ensures(mic::default_source_name_from_wpctl, (success, stdout), r),
        call_ensures(mic::parse_wpctl_field, (output, key1), r1),
        call_ensures(mic::parse_wpctl_field, (output, key2), r2),
        call_ensures(mic::parse_wpctl_field, (output, key3), r3),
        key1@ == "node.description"@ && key2@ == "node.nick"@ && key3@ == "device.description"@,
        valid_utf8(stdout@) ==> output@ == decode_utf8(stdout@),
    ensures
        !success || !valid_utf8(stdout@) ==> r is None,
        success && valid_utf8(stdout@) ==> config::opt_view(r) == config::opt_view(
            if r1 is Some {
                r1
            } else if r2 is Some {
                r2
            } else {
                r3
            },
        ),
{
}

/// The microphone in use is the default source where that has a name, and else the first device
/// whose name says something, without the white space around it.
pub proof fn microphone_is_detected(
    source: Option<String>,
    devices: &Vec<String>,
    tells: Seq<bool>,
    r: Option<String>,
)
    requires
        call_ensures(mic::detect_active_mic_name, (source, devices), r),
        tells.len() == devices@.len(),
        forall|i: int|
            0 <= i < tells.len() ==> #[trigger] tells[i] == !mic::is_placeholder(devices@[i]@),
    ensures
        source matches Some(s) ==> r is Some && r->0@ == s@,
        source is None ==> match r {
            Some(n) => exists|i: int|
                0 <= i < tells.len() && #[trigger] tells[i] && texts::is_core(devices@[i]@, n@)
                    && forall|j: int| 0 <= j < i ==> !#[trigger] tells[j],
            None => forall|i: int| 0 <= i < tells.len() ==> !#[trigger] tells[i],
        },
{
    if source is None {
        lemma_telling(text::views(devices@), tells, 0);
        assert(text::views(devices@).skip(0) =~= text::views(devices@));
    }
}

proof fn lemma_telling(names: Seq<Seq<char>>, tells: Seq<bool>, from: int)
    requires
        tells.len() == names.len(),
        0 <= from <= names.len(),
        forall|i: int|
            0 <= i < tells.len() ==> #[trigger] tells[i] == !mic::is_placeholder(names[i]),
    ensures
        match mic::first_telling(names.skip(from)) {
            Some(n) => exists|i: int|
                from <= i < tells.len() && #[trigger] tells[i] && texts::is_core(names[i], n)
                    && forall|j: int| from <= j < i ==> !#[trigger] tells[j],
            None => forall|i: int| from <= i < tells.len() ==> !#[trigger] tells[i],
        },
    decreases names.len() - from,
{
    if from < names.len() {
        let s = names.skip(from);
        assert(s[0] == names[from]);
        assert(s.drop_first() =~= names.skip(from + 1));
        text::trimming_is_done_once(names[from], CharClass::WhiteSpace);
        texts::lemma_trimmed(names[from]);
        assert(mic::is_placeholder(text::trimmed(names[from])) == mic::is_placeholder(names[from]));
        lemma_telling(names, tells, from + 1);
        assert(tells[from] == !mic::is_placeholder(names[from]));
        if tells[from] {
            assert(texts::is_core(names[from], text::trimmed(names[from])));
        }
    }
}

/// Where a provider runs.
pub open spec fn runs_at(provider: Seq<char>, label: Seq<char>) -> bool {
    let remote = provider == "mistral_realtime"@ || provider == "openai-api"@ || provider
        == "assembly-ai"@ || provider == "audetic-api"@;
    let local = provider == "openai-cli"@ || provider == "whisper-cpp"@;
    &&& remote ==> label == "API"@
    &&& !remote && local ==> label == "Local"@
    &&& !remote && !local ==> label == "Unknown"@
}

/// A number within its bounds.
pub open spec fn within(asked: int, least: int, most: int, r: int) -> bool {
    &&& least <= r <= most
    &&& least <= asked <= most ==> r == asked
    &&& asked < least ==> r == least
    &&& asked > most ==> r == most
}

/// The settings that the overlay starts with: those it has kept of its own, and those of the
/// configuration.
pub open spec fn starts_set(
    s: OverlaySettingsUpdate,
    behavior: BehaviorConfig,
    show_meter: bool,
    saved: Option<OverlayUiState>,
) -> bool {
    &&& s.audio_ducking == behavior.audio_ducking
    &&& s.preserve_clipboard == behavior.preserve_clipboard
    &&& within(behavior.ducking_level_percent as int, 5, 95, s.ducking_level_percent as int)
    &&& saved matches Some(u) ==> s.control_mode == u.control_mode && s.show_meter == u.show_meter
        && within(u.ptt_activation_delay_ms as int, 120, 800, s.ptt_activation_delay_ms as int)
    &&& saved is None ==> s.control_mode == InputControlMode::Toggle && s.show_meter == show_meter
        && s.ptt_activation_delay_ms == 260
}

/// What the overlay starts to do with a text: what it has kept, or else a copy and what the
/// configuration says.
pub open spec fn starts_putting_out(
    o: OutputModeState,
    behavior: BehaviorConfig,
    saved: Option<OutputModeState>,
) -> bool {
    &&& saved is Some ==> saved == Some(o)
    &&& saved is None ==> o.copy_to_clipboard && o.auto_paste == behavior.auto_paste
        && o.append_newline == behavior.append_newline && !o.send_enter
}

/// The overlay starts as the configuration says, with what it has kept of its own settings.
pub proof fn overlay_starts_from_its_configuration(
    c: &Config,
    urls: ControlUrls,
    mic_name: Option<&str>,
    output: Option<OutputModeState>,
    ui: Option<OverlayUiState>,
    r: OverlayRuntimeConfig,
    checked: Option<OverlayRuntimeConfig>,
)
    requires
        call_ensures(OverlayRuntimeConfig::with_urls, (c, urls, mic_name, output, ui), r),
        call_ensures(
            OverlayRuntimeConfig::checked_from_config,
            (c, mic_name, output, ui),
            checked,
        ),
    ensures
        r.url@ == c.overlay.url@ && r.ui.urls == urls,
        r.always_on_top == c.overlay.always_on_top && r.width == c.overlay.width && r.height
            == c.overlay.height,
        c.streaming.enabled <==> r.ui.engine_mode == EngineMode::Streaming,
        starts_set(r.ui.settings, c.behavior, c.overlay.show_meter, ui),
        starts_putting_out(r.ui.output, c.behavior, output),
        r.ui.labels.streaming_model@ == c.streaming.model@,
        runs_at(c.streaming.provider@, r.ui.labels.streaming_source@),
        c.whisper.model matches Some(m) ==> r.ui.labels.batch_model@ == m@,
        c.whisper.model is None ==> r.ui.labels.batch_model@ == "<default>"@,
        c.whisper.provider matches Some(p) ==> runs_at(p@, r.ui.labels.batch_source@),
        c.whisper.provider is None ==> r.ui.labels.batch_source@ == "API"@,
        mic_name is None ==> r.ui.labels.mic@ == "Unknown"@,
        mic_name matches Some(n) ==> r.ui.labels.mic@.len() <= 12 && (n@.len() <= 12
            ==> r.ui.labels.mic@ == n@) && (n@.len() > 12 ==> r.ui.labels.mic@ == n@.take(12)),
        checked matches Some(k) ==> k.url@ == r.url@ && k.ui.settings == r.ui.settings
            && k.ui.output == r.ui.output && k.ui.engine_mode == r.ui.engine_mode && at_path(
            c.overlay.url@,
            "/toggle"@,
            k.ui.urls.toggle@,
        ) && at_path(c.overlay.url@, "/start"@, k.ui.urls.start@) && at_path(
            c.overlay.url@,
            "/stop"@,
            k.ui.urls.stop@,
        ),
{
    reveal_strlit("audetic-api");
    reveal_strlit("mistral_realtime");
    reveal_strlit("openai-api");
    reveal_strlit("assembly-ai");
    reveal_strlit("openai-cli");
    reveal_strlit("whisper-cpp");
}

/// Without a configuration the overlay starts for the local service, streaming, with what it has
/// kept.
pub proof fn overlay_starts_without_a_configuration(
    urls: ControlUrls,
    output: Option<OutputModeState>,
    ui: Option<OverlayUiState>,
    r: OverlayRuntimeConfig,
    d: BehaviorConfig,
)
    requires
        call_ensures(OverlayRuntimeConfig::plain_with_urls, (urls, output, ui), r),
        call_ensures(<BehaviorConfig as Default>::default, (), d),
    ensures
        r.url@ == "http://127.0.0.1:3737/stream/events"@ && r.ui.urls == urls,
        r.always_on_top && r.width == 560 && r.height == 220,
        r.ui.engine_mode == EngineMode::Streaming,
        starts_set(r.ui.settings, d, true, ui),
        starts_putting_out(r.ui.output, d, output),
        r.ui.labels.streaming_model@ == "voxtral-mini-transcribe-realtime-2602"@
            && r.ui.labels.streaming_source@ == "API"@ && r.ui.labels.batch_model@ == "base"@
            && r.ui.labels.batch_source@ == "Local"@ && r.ui.labels.mic@ == "Unknown"@,
{
}

/// Where a provider runs is told, and the window is not smaller than it can be.
pub proof fn providers_and_windows(
    provider: &str,
    label: &'static str,
    width: u32,
    height: u32,
    size: (u32, u32),
)
    requires
        call_ensures(runtime::provider_source_label, (provider,), label),
        call_ensures(runtime::window_size, (width, height), size),
    ensures
        runs_at(provider@, label@),
        size.0 >= 460 && size.0 >= width && (size.0 == 460 || size.0 == width),
        size.1 >= 300 && size.1 >= height && (size.1 == 300 || size.1 == height),
{
}

/// What the overlay keeps of its settings it starts with the next time, the numbers within their
/// bounds, and the rest of the configuration stays.
pub proof fn settings_come_back(
    c: &mut Config,
    update: &OverlaySettingsUpdate,
    kept: OverlayUiState,
    next: &Config,
    urls: ControlUrls,
    mic_name: Option<&str>,
    output: Option<OutputModeState>,
    r: OverlayRuntimeConfig,
)
    requires
        call_ensures(runtime::persist_overlay_settings, (c, update), ()),
        call_ensures(runtime::persist_overlay_ui_state, (update,), kept),
        *next == *final(c),
        call_ensures(
            OverlayRuntimeConfig::with_urls,
            (next, urls, mic_name, output, Some(kept)),
            r,
        ),
    ensures
        r.ui.settings.control_mode == update.control_mode,
        r.ui.settings.show_meter == update.show_meter,
        r.ui.settings.audio_ducking == update.audio_ducking,
        r.ui.settings.preserve_clipboard == update.preserve_clipboard,
        within(
            update.ptt_activation_delay_ms as int,
            120,
            800,
            r.ui.settings.ptt_activation_delay_ms as int,
        ),
        within(
            update.ducking_level_percent as int,
            5,
            95,
            r.ui.settings.ducking_level_percent as int,
        ),
        final(c).overlay.show_meter == update.show_meter,
        final(c).whisper == old(c).whisper && final(c).ui == old(c).ui && final(c).wayland == old(
        c).wayland && final(c).streaming == old(c).streaming,
        final(c).overlay == (OverlayConfig { show_meter: update.show_meter, ..old(c).overlay }),
        final(c).behavior == (BehaviorConfig {
            audio_ducking: final(c).behavior.audio_ducking,
            ducking_level_percent: final(c).behavior.ducking_level_percent,
            preserve_clipboard: final(c).behavior.preserve_clipboard,
            ..old(c).behavior
        }),
        kept.control_mode == update.control_mode && kept.show_meter == update.show_meter,
{
}

/// The engine that is chosen is the one that the configuration then says, and nothing else of it
/// changes.
pub proof fn engine_is_kept(c: &mut Config, mode: EngineMode)
    requires
        call_ensures(runtime::persist_engine_mode, (c, mode), ()),
    ensures
        final(c).streaming.enabled <==> mode == EngineMode::Streaming,
        final(c).streaming == (StreamingConfig {
            enabled: final(c).streaming.enabled,
            ..old(c).streaming
        }),
        final(c).whisper == old(c).whisper && final(c).ui == old(c).ui && final(c).wayland == old(
        c).wayland && final(c).behavior == old(c).behavior && final(c).overlay == old(c).overlay,
{
}

/// The messages name the file and what could not be done with it.
pub proof fn save_errors_are_told(e: SaveError, r: String)
    requires
        call_ensures(SaveError::message, (&e,), r),
    ensures
        e is NoDataDirectory ==> r@ == "Could not resolve data directory"@,
        e matches SaveError::CreateDirectory(f, x) ==> r@ == (if f == StateFile::OutputMode {
            "Failed to create output-mode directory: "@
        } else {
            "Failed to create overlay state directory: "@
        }) + x@,
        e matches SaveError::Serialize(f, x) ==> r@ == (if f == StateFile::OutputMode {
            "Failed to serialize output mode state: "@
        } else {
            "Failed to serialize overlay state: "@
        }) + x@,
        e matches SaveError::Write(f, x) ==> r@ == (if f == StateFile::OutputMode {
            "Failed to write output mode state: "@
        } else {
            "Failed to write overlay state: "@
        }) + x@,
        e matches SaveError::LoadConfig(x) ==> r@ == "Failed to load config: "@ + x@,
        e matches SaveError::SaveConfig(x) ==> r@ == "Failed to save config: "@ + x@,
{
}

/// The settings that hold for every job are those of the configuration, and a recording needs a
/// provider, which is told all that the configuration says of it.
pub proof fn service_follows_its_configuration(
    behavior: &BehaviorConfig,
    options: BehaviorOptions,
    c: &Config,
    r: Result<(String, ProviderConfig), ServiceError>,
    e: ServiceError,
    message: String,
)
    requires
        call_ensures(service::behavior_options, (behavior,), options),
        call_ensures(service::build_transcriber, (c,), r),
        call_ensures(ServiceError::message, (e,), message),
    ensures
        options.auto_paste == behavior.auto_paste && options.delete_audio_files
            == behavior.delete_audio_files && options.append_newline == behavior.append_newline,
        r is Ok <==> c.whisper.provider is Some,
        r matches Err(x) ==> x == ServiceError::NoProvider,
        r matches Ok(t) ==> t.0 == c.whisper.provider->0 && t.1.model == c.whisper.model
            && t.1.model_path == c.whisper.model_path && t.1.language == c.whisper.language
            && t.1.command_path == c.whisper.command_path && t.1.api_endpoint
            == c.whisper.api_endpoint && t.1.api_key == c.whisper.api_key,
        message@
            == "No transcription provider configured. Set [whisper].provider in ~/.config/audetic/config.toml"@,
{
}

/// The settings that hold where nothing was set.
pub proof fn defaults_hold(
    w: WhisperConfig,
    b: BehaviorConfig,
    s: StreamingConfig,
    o: OverlayConfig,
    l: WaylandConfig,
    y: WaybarConfig,
    c: Config,
)
    requires
        call_ensures(<WhisperConfig as Default>::default, (), w),
        call_ensures(<BehaviorConfig as Default>::default, (), b),
        call_ensures(<StreamingConfig as Default>::default, (), s),
        call_ensures(<OverlayConfig as Default>::default, (), o),
        call_ensures(<WaylandConfig as Default>::default, (), l),
        call_ensures(<WaybarConfig as Default>::default, (), y),
        call_ensures(<Config as Default>::default, (), c),
    ensures
        w.model is Some && w.model->0@ == "base"@ && w.language is Some && w.language->0@ == "en"@
            && w.provider is Some && w.provider->0@ == "audetic-api"@ && w.command_path is None
            && w.model_path is None && w.api_endpoint is None && w.api_key is None,
        b.auto_paste && !b.preserve_clipboard && b.delete_audio_files && b.audio_feedback
            && !b.append_newline && !b.audio_ducking && b.ducking_level_percent == 35,
        !s.enabled && s.provider@ == "mistral_realtime"@ && s.api_key is None && s.model@
            == "voxtral-mini-transcribe-realtime-2602"@ && s.api_base_url@
            == "https://api.mistral.ai"@ && s.sample_rate_hz == 16_000 && s.chunk_ms == 20
            && s.silence_timeout_ms == 700 && s.commit_target@ == "clipboard"@,
        o.enabled && o.url@ == "http://127.0.0.1:3737/stream/events"@ && o.always_on_top && o.width
            == 560 && o.height == 220 && o.show_meter,
        l.input_method@ == "wtype"@,
        y.idle_tooltip@ == "Press Super+R to record"@ && y.recording_tooltip@
            == "Recording... Press Super+R to stop"@,
        c.behavior == b && !c.streaming.enabled && c.streaming.provider@ == s.provider@
            && c.streaming.model@ == s.model@ && c.streaming.commit_target@ == s.commit_target@
            && c.overlay.url@ == o.url@ && c.wayland.input_method@ == l.input_method@,
{
}

/// The tray shows the phase that the service names and its last error; where the service does not
/// answer, it shows that it is disconnected and no error.
pub proof fn tray_shows_the_service(
    t: &mut AudeticTray,
    status: Option<StatusResponse>,
    fresh: AudeticTray,
    value: &str,
    phase: TrayPhase,
)
    requires
        call_ensures(AudeticTray::fetch_phase, (t, status), ()),
        call_ensures(AudeticTray::new, (), fresh),
        call_ensures(TrayPhase::from_api, (value,), phase),
    ensures
        status matches Some(s) ==> s.phase@ == value@ ==> final(t).phase == phase,
        status matches Some(s) ==> final(t).last_error == s.last_error,
        status is None ==> final(t).phase == TrayPhase::Unknown && final(t).last_error is None,
        fresh.phase == TrayPhase::Unknown && fresh.last_error is None,
        phase == TrayPhase::Idle <==> value@ == "idle"@,
        phase == TrayPhase::Recording <==> value@ == "recording"@,
        phase == TrayPhase::Processing <==> value@ == "processing"@,
        phase == TrayPhase::Error <==> value@ == "error"@,
{
    reveal_strlit("idle");
    reveal_strlit("recording");
    reveal_strlit("processing");
    reveal_strlit("error");
    assert("idle"@.len() == 4 && "recording"@.len() == 9 && "processing"@.len() == 10
        && "error"@.len() == 5);
}

/// The word for a phase.
pub open spec fn is_word(phase: TrayPhase, word: Seq<char>) -> bool {
    match phase {
        TrayPhase::Idle => word == "Idle"@,
        TrayPhase::Recording => word == "Recording"@,
        TrayPhase::Processing => word == "Processing"@,
        TrayPhase::Error => word == "Error"@,
        TrayPhase::Unknown => word == "Disconnected"@,
    }
}

/// The title and the tip of the tray tell the phase in a word, and the tip the last error on a line
/// of its own.
pub proof fn tray_tells_the_phase(
    t: &AudeticTray,
    word: &'static str,
    color: (u8, u8, u8),
    title: String,
    tip: String,
)
    requires
        call_ensures(TrayPhase::label, (t.phase,), word),
        call_ensures(TrayPhase::icon_color, (t.phase,), color),
        call_ensures(AudeticTray::title, (t,), title),
        call_ensures(AudeticTray::tool_tip, (t,), tip),
    ensures
        is_word(t.phase, word@),
        title@ == "Audetic ("@ + word@ + ")"@,
        t.last_error is None ==> tip@ == "Status: "@ + word@,
        t.last_error matches Some(e) ==> tip@ == "Status: "@ + word@ + seq!['\n'] + e@,
        t.phase == TrayPhase::Idle ==> color == (46u8, 204u8, 113u8),
        t.phase == TrayPhase::Recording ==> color == (231u8, 76u8, 60u8),
        t.phase == TrayPhase::Processing ==> color == (243u8, 156u8, 18u8),
        t.phase == TrayPhase::Error ==> color == (192u8, 57u8, 43u8),
        t.phase == TrayPhase::Unknown ==> color == (127u8, 140u8, 141u8),
{
    assert("Status: "@ + word@ + Seq::<char>::empty() =~= "Status: "@ + word@);
    if let Some(e) = t.last_error {
        assert("Status: "@ + word@ + (seq!['\n'] + e@) =~= "Status: "@ + word@ + seq!['\n'] + e@);
    }
}

/// The icon is a disc of the given colour in the middle of a transparent square: a pixel is opaque
/// and has that colour where it lies no further from the middle than the radius, and else is empty.
pub proof fn icon_is_a_disc(color: (u8, u8, u8), r: Vec<u8>, x: int, y: int)
    requires
        call_ensures(tray::build_circle_icon, (color,), r),
        0 <= x < 32,
        0 <= y < 32,
    ensures
        r@.len() == 32 * 32 * 4,
        ({
            let at = 4 * (32 * y + x);
            let inside = (2 * x - 31) * (2 * x - 31) + (2 * y - 31) * (2 * y - 31) <= 591;
            &&& inside ==> r@[at] == 255 && r@[at + 1] == color.0 && r@[at + 2] == color.1 && r@[at
                + 3] == color.2
            &&& !inside ==> r@[at] == 0 && r@[at + 1] == 0 && r@[at + 2] == 0 && r@[at + 3] == 0
        }),
{
    let pixel = 32 * y + x;
    let at = 4 * pixel;
    assert(pixel % 32 == x && pixel / 32 == y);
    assert(at / 4 == pixel && (at + 1) / 4 == pixel && (at + 2) / 4 == pixel && (at + 3) / 4
        == pixel);
    assert(at % 4 == 0 && (at + 1) % 4 == 1 && (at + 2) % 4 == 2 && (at + 3) % 4 == 3);
    assert(at + 3 < 4096);
}

/// However the start of the overlay is made, it is the same.
pub proof fn starts_agree(
    c: &Config,
    mic_name: Option<&str>,
    output: Option<OutputModeState>,
    ui: Option<OverlayUiState>,
    direct: OverlayRuntimeConfig,
    made: OverlayRuntimeConfig,
    plain: Option<OverlayRuntimeConfig>,
    plain_made: OverlayRuntimeConfig,
)
    requires
        call_ensures(OverlayRuntimeConfig::from_config, (c, mic_name, output, ui), direct),
        call_ensures(
            OverlayRuntimeConfig::with_urls,
            (c, direct.ui.urls, mic_name, output, ui),
            made,
        ),
        call_ensures(OverlayRuntimeConfig::fallback_default, (output, ui), plain),
        plain is Some ==> call_ensures(
            OverlayRuntimeConfig::plain_with_urls,
            (plain->0.ui.urls, output, ui),
            plain_made,
        ),
    ensures
        direct.url@ == made.url@ && direct.width == made.width && direct.height == made.height
            && direct.always_on_top == made.always_on_top && direct.ui.settings == made.ui.settings
            && direct.ui.output == made.ui.output && direct.ui.engine_mode == made.ui.engine_mode,
        direct.ui.labels.streaming_model@ == made.ui.labels.streaming_model@
            && direct.ui.labels.batch_model@ == made.ui.labels.batch_model@
            && direct.ui.labels.mic@ == made.ui.labels.mic@
            && direct.ui.labels.streaming_source@ == made.ui.labels.streaming_source@
            && direct.ui.labels.batch_source@ == made.ui.labels.batch_source@,
        at_path(c.overlay.url@, "/toggle"@, direct.ui.urls.toggle@) && at_path(
            c.overlay.url@,
            "/start"@,
            direct.ui.urls.start@,
        ) && at_path(c.overlay.url@, "/stop"@, direct.ui.urls.stop@),
        plain matches Some(p) ==> p.url@ == plain_made.url@ && p.width == plain_made.width
            && p.height == plain_made.height && p.ui.settings == plain_made.ui.settings
            && p.ui.output == plain_made.ui.output && p.ui.engine_mode == plain_made.ui.engine_mode
            && at_path("http://127.0.0.1:3737/stream/events"@, "/toggle"@, p.ui.urls.toggle@)
            && at_path("http://127.0.0.1:3737/stream/events"@, "/start"@, p.ui.urls.start@)
            && at_path("http://127.0.0.1:3737/stream/events"@, "/stop"@, p.ui.urls.stop@),
{
}

/// The two ways to the address of a socket agree with those of the client.
pub proof fn socket_addresses_agree(
    c: MistralRealtimeClient,
    base: &str,
    model: &str,
    a: Result<String, UrlError>,
    b: Option<Result<String, UrlError>>,
    x: Result<String, UrlError>,
    y: Option<Result<String, UrlError>>,
)
    requires
        base@ == c.api_base_url@ && model@ == c.model@,
        call_ensures(web_url::socket_url, (base, model), a),
        call_ensures(web_url::checked_socket_url, (base, model), b),
        call_ensures(MistralRealtimeClient::websocket_url, (&c,), x),
        call_ensures(MistralRealtimeClient::checked_websocket_url, (&c,), y),
    ensures
        a is Ok == x is Ok && (a is Ok ==> a->Ok_0@ == x->Ok_0@),
        b is Some == y is Some,
        b is Some ==> b->0 is Ok == a is Ok && (a is Ok ==> b->0->Ok_0@ == a->Ok_0@),
{
}

/// Sound is given back to the user, and other sounds are lowered to 35 percent, where nothing was
/// set; the tray asks every 420 milliseconds, and the meter is looked at every 33.
pub proof fn standing_values(feedback: bool, level: u8)
    requires
        call_ensures(config::default_audio_feedback, (), feedback),
        call_ensures(config::default_ducking_level_percent, (), level),
    ensures
        feedback,
        level == 35,
        tray::POLL_INTERVAL_MS == 420,
        crate::audio::level_monitor::METER_TICK_MS == 33,
{
}

} // verus!

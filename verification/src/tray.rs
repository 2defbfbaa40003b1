//! The tray icon: what it shows of the service.
use vstd::prelude::*;
use vstd::string::*;

use crate::text;

verus! {

/// How often the service is asked for its status.
pub const POLL_INTERVAL_MS: u64 = 420;

/// The side of the icon in pixels.
pub const ICON_SIZE: usize = 32;

/// What the service is doing, as far as the tray knows.
#[derive(Debug, Clone, Copy, PartialEq, Eq, Structural)]
pub enum TrayPhase {
    Idle,
    Recording,
    Processing,
    Error,
    Unknown,
}

/// The phase that a status names.
pub open spec fn named_phase(value: Seq<char>) -> TrayPhase {
    if value == "idle"@ {
        TrayPhase::Idle
    } else if value == "recording"@ {
        TrayPhase::Recording
    } else if value == "processing"@ {
        TrayPhase::Processing
    } else if value == "error"@ {
        TrayPhase::Error
    } else {
        TrayPhase::Unknown
    }
}

/// The word for a phase.
pub open spec fn phase_label(phase: TrayPhase) -> Seq<char> {
    match phase {
        TrayPhase::Idle => "Idle"@,
        TrayPhase::Recording => "Recording"@,
        TrayPhase::Processing => "Processing"@,
        TrayPhase::Error => "Error"@,
        TrayPhase::Unknown => "Disconnected"@,
    }
}

impl TrayPhase {
    /// The phase that a status names.
    pub fn from_api(value: &str) -> (r: TrayPhase)
        ensures
            r == named_phase(value@),
    {
        if text::same(value, "idle") {
            TrayPhase::Idle
        } else if text::same(value, "recording") {
            TrayPhase::Recording
        } else if text::same(value, "processing") {
            TrayPhase::Processing
        } else if text::same(value, "error") {
            TrayPhase::Error
        } else {
            TrayPhase::Unknown
        }
    }

    /// The word for the phase.
    pub fn label(self) -> (r: &'static str)
        ensures
            r@ == phase_label(self),
    {
        match self {
            TrayPhase::Idle => "Idle",
            TrayPhase::Recording => "Recording",
            TrayPhase::Processing => "Processing",
            TrayPhase::Error => "Error",
            TrayPhase::Unknown => "Disconnected",
        }
    }

    /// The colour of the icon: red, green and blue.
    pub fn icon_color(self) -> (r: (u8, u8, u8))
        ensures
            r == (match self {
                TrayPhase::Idle => (46u8, 204u8, 113u8),
                TrayPhase::Recording => (231u8, 76u8, 60u8),
                TrayPhase::Processing => (243u8, 156u8, 18u8),
                TrayPhase::Error => (192u8, 57u8, 43u8),
                TrayPhase::Unknown => (127u8, 140u8, 141u8),
            }),
    {
        match self {
            TrayPhase::Idle => (46, 204, 113),
            TrayPhase::Recording => (231, 76, 60),
            TrayPhase::Processing => (243, 156, 18),
            TrayPhase::Error => (192, 57, 43),
            TrayPhase::Unknown => (127, 140, 141),
        }
    }
}

/// What the service says of its status.
#[derive(Debug)]
pub struct StatusResponse {
    pub phase: String,
    pub last_error: Option<String>,
}

/// What the tray shows.
#[derive(Debug)]
pub struct AudeticTray {
    pub phase: TrayPhase,
    pub last_error: Option<String>,
}

impl AudeticTray {
    /// A tray that knows nothing of the service yet.
    pub fn new() -> (r: AudeticTray)
        ensures
            r.phase == TrayPhase::Unknown,
            r.last_error is None,
    {
        AudeticTray { phase: TrayPhase::Unknown, last_error: None }
    }

    /// Follows the status of the service; there is none where the service did not answer, refused
    /// to answer or answered something else.
    pub fn fetch_phase(&mut self, status: Option<StatusResponse>)
        ensures
            match status {
                Some(s) => final(self).phase == named_phase(s.phase@) && final(self).last_error
                    == s.last_error,
                None => final(self).phase == TrayPhase::Unknown && final(self).last_error is None,
            },
    {
        match status {
            Some(s) => {
                self.phase = TrayPhase::from_api(s.phase.as_str());
                self.last_error = s.last_error;
            },
            None => {
                self.phase = TrayPhase::Unknown;
                self.last_error = None;
            },
        }
    }

    /// The title of the icon.
    pub fn title(&self) -> (r: String)
        ensures
            r@ == "Audetic ("@ + phase_label(self.phase) + ")"@,
    {
        let r = text::join("Audetic (", self.phase.label());
        text::join(r.as_str(), ")")
    }

    /// What the icon says when pointed at: the status, and the last error on a line of its own.
    pub fn tool_tip(&self) -> (r: String)
        ensures
            r@ == "Status: "@ + phase_label(self.phase) + (match self.last_error {
                Some(e) => seq!['\n'] + e@,
                None => Seq::empty(),
            }),
    {
        let mut description = text::join("Status: ", self.phase.label());
        let ghost status = description@;
        match &self.last_error {
            Some(e) => {
                description.push('\n');
                let r = text::join(description.as_str(), e.as_str());
                assert(r@ =~= status + (seq!['\n'] + e@));
                r
            },
            None => {
                assert(status + Seq::<char>::empty() =~= status);
                description
            },
        }
    }
}

/// A pixel belongs to the disc in the middle of the icon: it is no further from the middle than
/// twelve pixels and sixteen hundredths. Distances are counted in half pixels.
pub open spec fn in_disc(x: int, y: int) -> bool {
    (2 * x - 31) * (2 * x - 31) + (2 * y - 31) * (2 * y - 31) <= 591
}

/// One byte of the icon: row by row, four bytes to a pixel, opacity first.
pub open spec fn icon_byte(color: (u8, u8, u8), i: int) -> u8 {
    let pixel = i / 4;
    if !in_disc(pixel % 32, pixel / 32) {
        0
    } else if i % 4 == 0 {
        255
    } else if i % 4 == 1 {
        color.0
    } else if i % 4 == 2 {
        color.1
    } else {
        color.2
    }
}

/// The bytes of an icon: a disc of the given colour on a transparent ground.
pub open spec fn icon_bytes(color: (u8, u8, u8)) -> Seq<u8> {
    Seq::new(4096, |i: int| icon_byte(color, i))
}

/// The bytes of an icon: a disc of the given colour on a transparent ground.
pub fn build_circle_icon(color: (u8, u8, u8)) -> (r: Vec<u8>)
    ensures
        r@ == icon_bytes(color),
{
    let mut data: Vec<u8> = Vec::new();
    let mut pixel: usize = 0;
    while pixel < ICON_SIZE * ICON_SIZE
        invariant
            pixel <= 1024,
            data@.len() == 4 * pixel,
            forall|i: int| 0 <= i < data@.len() ==> data@[i] == icon_byte(color, i),
        decreases 1024 - pixel,
    {
        let dx: i32 = 2 * ((pixel % ICON_SIZE) as i32) - 31;
        let dy: i32 = 2 * ((pixel / ICON_SIZE) as i32) - 31;
        assert(0 <= dx * dx <= 31 * 31) by (nonlinear_arith)
            requires
                -31 <= dx <= 31,
        ;
        assert(0 <= dy * dy <= 31 * 31) by (nonlinear_arith)
            requires
                -31 <= dy <= 31,
        ;
        let inside = dx * dx + dy * dy <= 591;
        assert(inside == in_disc(pixel as int % 32, pixel as int / 32));
        let ghost before = data@;
        if inside {
            data.push(255);
            data.push(color.0);
            data.push(color.1);
            data.push(color.2);
        } else {
            data.push(0);
            data.push(0);
            data.push(0);
            data.push(0);
        }
        assert forall|i: int| 0 <= i < data@.len() implies data@[i] == icon_byte(color, i) by {
            if i < before.len() {
                assert(data@[i] == before[i]);
            } else {
                assert(i / 4 == pixel as int);
            }
        }
        pixel += 1;
    }
    assert(data@ =~= icon_bytes(color));
    data
}

} // verus!

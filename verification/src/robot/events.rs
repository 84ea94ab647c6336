//! Events and states the robot's tasks exchange.

use vstd::prelude::*;

verus! {

/// What the user did with the power button.
#[derive(Clone, Copy, Debug, PartialEq, Eq, Structural)]
pub enum ButtonEvent {
    /// A press released before the power-off threshold: move to the next menu page.
    ShortPress,
    /// The button was held past the power-off threshold. The board is about to cut its own supply.
    LongPress,
}

/// Why the power-latch owner is shutting the board down.
#[derive(Clone, Copy, Debug, PartialEq, Eq, Structural)]
pub enum ShutdownReason {
    /// The user held the power button past the shutdown threshold.
    ButtonHeld,
    /// The battery monitor found a critically low pack that is not charging.
    LowBattery,
}

/// User-interface events emitted by the task that owns the power button and latch.
#[derive(Clone, Copy, Debug, PartialEq, Eq, Structural)]
pub enum PowerEvent {
    /// A short button press should advance the display menu.
    ShortPress,
    /// The display should show the terminal notice for this shutdown reason.
    ShuttingDown(ShutdownReason),
}

/// A page of the on-device menu. Exactly one page is shown at a time.
#[derive(Clone, Copy, Debug, PartialEq, Eq, Structural)]
pub enum MenuPage {
    /// Network link, IP address and broker session.
    Network,
    /// Pack charge, voltages and charger health.
    Battery,
}

impl Default for MenuPage {
    fn default() -> (page: Self)
        ensures
            page == MenuPage::Network,
    {
        MenuPage::Network
    }
}

impl MenuPage {
    /// Number of pages.
    pub const COUNT: usize = 2;

    /// Every page, in the order short presses cycle through them.
    pub const ALL: [MenuPage; 2] = [MenuPage::Network, MenuPage::Battery];

    /// A page's place in the cycle.
    pub open spec fn place(self) -> int {
        match self {
            MenuPage::Network => 0,
            MenuPage::Battery => 1,
        }
    }

    /// The page following this one, wrapping around after the last.
    pub open spec fn following(self) -> MenuPage {
        MenuPage::ALL@[(self.place() + 1) % (MenuPage::COUNT as int)]
    }

    /// The page shown after a number of short presses.
    pub open spec fn after(self, presses: nat) -> MenuPage
        decreases presses,
    {
        if presses == 0 {
            self
        } else {
            self.after((presses - 1) as nat).following()
        }
    }

    /// The page following this one, wrapping around after the last.
    #[must_use]
    pub fn next(self) -> (page: MenuPage)
        ensures
            page == self.following(),
    {
        match self {
            MenuPage::Network => MenuPage::Battery,
            MenuPage::Battery => MenuPage::Network,
        }
    }
}

/// Each press moves one place on, around the cycle of all pages: any page is reached from any other
/// with fewer presses than there are pages, and as many presses as there are pages lead back.
pub proof fn menu_cycles_through_all_pages(page: MenuPage, target: MenuPage, presses: nat)
    ensures
        MenuPage::ALL@.len() == MenuPage::COUNT,
        MenuPage::ALL@[page.place()] == page,
        page.after(presses) == MenuPage::ALL@[(page.place() + presses) % (MenuPage::COUNT as int)],
        page.after(MenuPage::COUNT as nat) == page,
        exists|n: nat| n < MenuPage::COUNT && #[trigger] page.after(n) == target,
    decreases presses,
{
    if presses > 0 {
        menu_cycles_through_all_pages(page, target, (presses - 1) as nat);
    }
    reveal_with_fuel(MenuPage::after, 3);
    assert(page.after(0) == page);
    assert(page.after(1) == page.following());
    assert(page.after(2) == page);
}

/// Whether the broker session is up. Trying to connect counts as down.
#[derive(Clone, Copy, Debug, PartialEq, Eq, Structural)]
pub enum BrokerStatus {
    Disconnected,
    Connected,
}

impl Default for BrokerStatus {
    fn default() -> (status: Self)
        ensures
            status == BrokerStatus::Disconnected,
    {
        BrokerStatus::Disconnected
    }
}

impl BrokerStatus {
    /// Label for the display.
    #[must_use]
    pub fn label(self) -> (label: &'static str)
        ensures
            label@ == (match self {
                BrokerStatus::Disconnected => "OFFLINE"@,
                BrokerStatus::Connected => "ONLINE"@,
            }),
    {
        match self {
            BrokerStatus::Disconnected => "OFFLINE",
            BrokerStatus::Connected => "ONLINE",
        }
    }
}

/// Manifest served by the OTA server. `url` is a path relative to the server's host.
#[derive(Clone, Copy, Debug, PartialEq, Eq)]
pub struct FirmwareManifest<'a> {
    pub version: &'a str,
    pub url: &'a str,
    pub size: u32,
}

/// Progress of an in-flight OTA update.
#[derive(Clone, Copy, Debug, PartialEq, Eq, Structural)]
pub enum OtaStatus {
    /// No update in flight; the device runs normally.
    Idle,
    /// A new version was found and the image transfer is being set up.
    Preparing,
    /// The image is being written into the inactive slot.
    Downloading { written: u32, total: u32 },
    /// The image is complete and activated; the device is about to reboot into it.
    Applying,
}

impl OtaStatus {
    /// Completion in whole percent, while it is known.
    pub open spec fn completion(self) -> Option<u8> {
        match self {
            OtaStatus::Downloading { written, total } => if total == 0 {
                None
            } else if written >= total {
                Some(100u8)
            } else {
                Some((written * 100 / (total as int)) as u8)
            },
            OtaStatus::Applying => Some(100u8),
            OtaStatus::Idle => None,
            OtaStatus::Preparing => None,
        }
    }

    /// Whether an update is in flight, i.e. the device must not be doing anything else.
    pub fn is_active(self) -> (active: bool)
        ensures
            active == !(self is Idle),
    {
        match self {
            OtaStatus::Idle => false,
            _ => true,
        }
    }

    /// Download completion in whole percent, or `None` while no image transfer with a known size is
    /// running.
    pub fn percent(self) -> (percent: Option<u8>)
        ensures
            percent == self.completion(),
            percent matches Some(p) ==> p <= 100,
    {
        match self {
            OtaStatus::Downloading { written, total } => {
                if total > 0 {
                    let exact: u64 = written as u64 * 100 / total as u64;
                    proof {
                        let (w, t) = (written as int, total as int);
                        assert(w >= t ==> w * 100 / t >= 100) by (nonlinear_arith)
                            requires
                                t > 0,
                        ;
                        assert(w < t ==> 0 <= w * 100 / t < 100) by (nonlinear_arith)
                            requires
                                t > 0,
                                w >= 0,
                        ;
                    }
                    if exact > 100 {
                        Some(100)
                    } else {
                        Some(exact as u8)
                    }
                } else {
                    None
                }
            },
            OtaStatus::Applying => Some(100),
            _ => None,
        }
    }
}

/// Progress never runs backwards while an image of one size is written, and only an active update
/// has any.
pub proof fn progress_never_runs_backwards(before: u32, after: u32, total: u32)
    requires
        before <= after,
        total > 0,
    ensures
        ({
            let a = (OtaStatus::Downloading { written: before, total }).completion();
            let b = (OtaStatus::Downloading { written: after, total }).completion();
            a is Some && b is Some && a->0 <= b->0 && b->0 <= 100
        }),
        OtaStatus::Idle.completion() is None,
{
    let (x, y, t) = (before as int, after as int, total as int);
    assert(x * 100 / t <= y * 100 / t) by (nonlinear_arith)
        requires
            0 <= x <= y,
            t > 0,
    ;
    assert(y < t ==> y * 100 / t < 100) by (nonlinear_arith)
        requires
            y >= 0,
            t > 0,
    ;
    assert(x < t ==> 0 <= x * 100 / t < 100) by (nonlinear_arith)
        requires
            x >= 0,
            t > 0,
    ;
}

/// While an image of known size is written, the percentage is the written share of it, rounded down
/// and never past 100; once it is complete it is 100, and without a size there is none.
pub proof fn percent_is_the_written_share(written: u32, total: u32)
    ensures
        ({
            let percent = (OtaStatus::Downloading { written, total }).completion();
            &&& total == 0 <==> percent is None
            &&& 0 < total && written >= total ==> percent == Some(100u8)
            &&& written < total ==> percent is Some && percent->0 * total <= written * 100 < (
            percent->0 + 1) * total
        }),
        OtaStatus::Applying.completion() == Some(100u8),
        OtaStatus::Idle.completion() is None,
        OtaStatus::Preparing.completion() is None,
{
    if written < total {
        let (w, t) = (written as int, total as int);
        let p = w * 100 / t;
        assert(0 <= p < 100 && p * t <= w * 100 < (p + 1) * t) by (nonlinear_arith)
            requires
                0 <= w < t,
                p == w * 100 / t,
        ;
    }
}

} // verus!

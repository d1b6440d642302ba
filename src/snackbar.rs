use vstd::prelude::*;

verus! {

/// How long a message fades out, in milliseconds.
pub const FADE_MS: u32 = 1000;

/// How long a message shows by default, in milliseconds.
pub const DEFAULT_TIME_MS: u32 = 5000;

/// What a toast is drawn from: how long it shows, its text, and whether it shows at all.
#[derive(Clone, Debug)]
pub struct SnackbarProps {
    pub time: u32,
    pub message: String,
    pub display: bool,
}

impl SnackbarProps {
    /// A toast with `message`, shown for the default time when `display` holds.
    pub fn new(message: String, display: bool) -> (r: Self)
        ensures
            r.time == DEFAULT_TIME_MS,
            r.message@ == message@,
            r.display == display,
    {
        SnackbarProps { time: DEFAULT_TIME_MS, message, display }
    }
}

/// A toast that shows a message, fades it out and hides it, driven by timer ticks.
pub struct Snackbar {
    display: bool,
    fade: bool,
}

/// The delay after which the first tick of a toast comes: when it starts to fade.
pub open spec fn first_tick_delay(time: u32) -> u32 {
    if time > FADE_MS {
        (time - FADE_MS) as u32
    } else {
        FADE_MS
    }
}

impl Snackbar {
    pub closed spec fn spec_display(&self) -> bool {
        self.display
    }

    pub closed spec fn spec_fade(&self) -> bool {
        self.fade
    }

    /// Shows or hides the toast as `props` says; returns the delay of the tick to schedule.
    pub fn set_display(&mut self, props: &SnackbarProps) -> (r: Option<u32>)
        ensures
            final(self).spec_display() == props.display,
            !final(self).spec_fade(),
            r == (if props.display {
                Some(first_tick_delay(props.time))
            } else {
                None
            }),
    {
        let tick = if props.display {
            if props.time > FADE_MS {
                Some(props.time - FADE_MS)
            } else {
                Some(FADE_MS)
            }
        } else {
            None
        };
        self.display = props.display;
        self.fade = false;
        tick
    }

    /// A toast for `props`, with the delay of the tick to schedule.
    pub fn create(props: &SnackbarProps) -> (r: (Self, Option<u32>))
        ensures
            r.0.spec_display() == props.display,
            !r.0.spec_fade(),
            r.1 == (if props.display {
                Some(first_tick_delay(props.time))
            } else {
                None
            }),
    {
        let mut snackbar = Snackbar { display: true, fade: false };
        let tick = snackbar.set_display(props);
        (snackbar, tick)
    }

    /// A timer tick: a showing toast starts to fade (another tick follows after the fade
    /// time); a fading one is hidden.
    pub fn update(&mut self) -> (r: (bool, Option<u32>))
        ensures
            old(self).spec_fade() ==> !final(self).spec_display() && !final(self).spec_fade() && r.1
                is None,
            !old(self).spec_fade() ==> final(self).spec_display() == old(self).spec_display()
                && final(self).spec_fade() && r.1 == Some(FADE_MS),
            r.0,
    {
        if self.fade {
            self.display = false;
            self.fade = false;
            (true, None)
        } else {
            self.fade = true;
            (true, Some(FADE_MS))
        }
    }

    /// New properties: shown or hidden again as they say.
    pub fn changed(&mut self, props: &SnackbarProps) -> (r: (bool, Option<u32>))
        ensures
            final(self).spec_display() == props.display,
            !final(self).spec_fade(),
            r.0,
            r.1 == (if props.display {
                Some(first_tick_delay(props.time))
            } else {
                None
            }),
    {
        (true, self.set_display(props))
    }

    pub fn display(&self) -> (r: bool)
        ensures
            r == self.spec_display(),
    {
        self.display
    }

    pub fn fade(&self) -> (r: bool)
        ensures
            r == self.spec_fade(),
    {
        self.fade
    }
}

} // verus!

//! The reader's state and its transitions: the API-key check, starting and
//! abandoning a fetch session, and the per-frame poll that drains the
//! session into the display list.

use vstd::prelude::*;
use crate::articles::CardView;
use crate::articles::NewsCardData;
use crate::channel::PollOutcome;
use crate::channel::PollOutcomeView;
use crate::channel::new_channel;
use crate::channel::try_recv_card;

verus! {

/// The number of characters an API key must have to be accepted.
pub const KEY_LEN: usize = 32;

/// User configuration: the colour scheme and the API key.
pub struct HeadlinesConfig {
    pub dark_mode: bool,
    pub api_key: String,
}

/// The mathematical content of the configuration.
#[verifier::ext_equal]
pub ghost struct ConfigView {
    pub dark_mode: bool,
    pub api_key: Seq<char>,
}

impl View for HeadlinesConfig {
    type V = ConfigView;

    open spec fn view(&self) -> ConfigView {
        ConfigView { dark_mode: self.dark_mode, api_key: self.api_key@ }
    }
}

impl Default for HeadlinesConfig {
    /// Light scheme, no key entered yet.
    fn default() -> (c: HeadlinesConfig)
        ensures
            !c@.dark_mode,
            c@.api_key == Seq::<char>::empty(),
    {
        HeadlinesConfig { dark_mode: false, api_key: String::new() }
    }
}

/// Whether a key is acceptable: exactly `KEY_LEN` characters.
pub open spec fn key_ok(k: Seq<char>) -> bool {
    k.len() == KEY_LEN
}

/// What a background fetch needs: the key to fetch with and the sending end
/// of the session's channel.
pub struct FetchJob {
    pub api_key: String,
    pub sender: std::sync::mpsc::Sender<NewsCardData>,
}

/// The mathematical content of a fetch job: the channel end is opaque.
#[verifier::ext_equal]
pub ghost struct FetchJobView {
    pub api_key: Seq<char>,
}

impl View for FetchJob {
    type V = FetchJobView;

    open spec fn view(&self) -> FetchJobView {
        FetchJobView { api_key: self.api_key@ }
    }
}

/// The reader's whole state.
pub struct Headlines {
    pub articles: Vec<NewsCardData>,
    pub config: HeadlinesConfig,
    pub api_key_initialized: bool,
    pub data_is_set: bool,
    pub initial_is_set: bool,
    pub news_rx: Option<std::sync::mpsc::Receiver<NewsCardData>>,
    pub fetch_error: Option<String>,
}

/// The mathematical content of the state. The channel end itself is opaque;
/// only whether a session is live is visible.
#[verifier::ext_equal]
pub ghost struct HeadlinesView {
    pub articles: Seq<CardView>,
    pub config: ConfigView,
    pub api_key_initialized: bool,
    pub data_is_set: bool,
    pub initial_is_set: bool,
    pub has_session: bool,
    pub fetch_error: Option<Seq<char>>,
}

impl View for Headlines {
    type V = HeadlinesView;

    open spec fn view(&self) -> HeadlinesView {
        HeadlinesView {
            articles: self.articles@.map_values(|c: NewsCardData| c@),
            config: self.config@,
            api_key_initialized: self.api_key_initialized,
            data_is_set: self.data_is_set,
            initial_is_set: self.initial_is_set,
            has_session: self.news_rx is Some,
            fetch_error: match self.fetch_error {
                Some(m) => Some(m@),
                None => None,
            },
        }
    }
}

/// The state a fresh reader starts in: nothing fetched, no key, light
/// scheme, no session.
pub open spec fn initial_view() -> HeadlinesView {
    HeadlinesView {
        articles: Seq::empty(),
        config: ConfigView { dark_mode: false, api_key: Seq::empty() },
        api_key_initialized: false,
        data_is_set: false,
        initial_is_set: false,
        has_session: false,
        fetch_error: None,
    }
}

/// Whether a fetch may start: none was started since the last refresh, and
/// the key is acceptable.
pub open spec fn can_start_fetch(s: HeadlinesView) -> bool {
    !s.data_is_set && key_ok(s.config.api_key)
}

/// The state once a fetch has started: a live session, the start recorded,
/// any old error cleared; the display list is left alone.
pub open spec fn started(s: HeadlinesView) -> HeadlinesView {
    HeadlinesView { data_is_set: true, has_session: true, fetch_error: None, ..s }
}

/// The state after a refresh request: the display list and any error are
/// cleared, and with an accepted key a new fetch session is live.
pub open spec fn refreshed(s: HeadlinesView) -> HeadlinesView {
    let cleared = HeadlinesView {
        articles: Seq::empty(),
        data_is_set: false,
        fetch_error: None,
        ..s
    };
    if key_ok(s.config.api_key) {
        started(cleared)
    } else {
        cleared
    }
}

/// One step of the poll loop. Without a live session nothing changes. A
/// received record goes to the end of the display list; an empty channel
/// changes nothing; a closed channel ends the session.
pub open spec fn poll_step(s: HeadlinesView, o: PollOutcomeView) -> HeadlinesView {
    if !s.has_session {
        s
    } else {
        match o {
            PollOutcomeView::Received(c) => HeadlinesView { articles: s.articles.push(c), ..s },
            PollOutcomeView::Empty => s,
            PollOutcomeView::Closed => HeadlinesView { has_session: false, ..s },
        }
    }
}

/// Whether the first automatic fetch is still owed: the key has been
/// confirmed and no frame has loaded yet.
pub open spec fn initial_load_pending(s: HeadlinesView) -> bool {
    !s.initial_is_set && s.api_key_initialized
}

/// The load half of one frame: the first frame after the key is confirmed
/// starts a fetch (when one may start) and records that it ran.
pub open spec fn ticked(s: HeadlinesView) -> HeadlinesView {
    if initial_load_pending(s) {
        let t = if can_start_fetch(s) {
            started(s)
        } else {
            s
        };
        HeadlinesView { initial_is_set: true, ..t }
    } else {
        s
    }
}

/// The state after a fetch has failed: the session is gone and the failure
/// is on display until the next fetch starts.
pub open spec fn failed(s: HeadlinesView, msg: Seq<char>) -> HeadlinesView {
    HeadlinesView { has_session: false, fetch_error: Some(msg), ..s }
}

impl Headlines {
    /// A fresh reader.
    pub fn new() -> (h: Headlines)
        ensures
            h@ == initial_view(),
    {
        let h = Headlines {
            articles: Vec::new(),
            config: HeadlinesConfig::default(),
            api_key_initialized: false,
            data_is_set: false,
            initial_is_set: false,
            news_rx: None,
            fetch_error: None,
        };
        proof {
            assert(h@ =~= initial_view());
        }
        h
    }

    /// Stores the key as the user typed it; nothing else moves.
    pub fn set_api_key(&mut self, key: String)
        ensures
            final(self)@ == (HeadlinesView {
                config: ConfigView { api_key: key@, ..old(self)@.config },
                ..old(self)@
            }),
    {
        self.config.api_key = key;
        proof {
            assert(self@ =~= (HeadlinesView {
                config: ConfigView { api_key: self.config.api_key@, ..old(self)@.config },
                ..old(self)@
            }));
        }
    }

    /// Confirms the entered key: with exactly `KEY_LEN` characters the
    /// reader leaves the key screen, otherwise nothing moves.
    pub fn confirm_api_key(&mut self) -> (ok: bool)
        ensures
            ok == key_ok(old(self)@.config.api_key),
            ok ==> final(self)@ == (HeadlinesView { api_key_initialized: true, ..old(self)@ }),
            !ok ==> final(self)@ == old(self)@,
    {
        if self.config.api_key.as_str().unicode_len() == KEY_LEN {
            self.api_key_initialized = true;
            proof {
                assert(self@ =~= (HeadlinesView { api_key_initialized: true, ..old(self)@ }));
            }
            true
        } else {
            false
        }
    }

    /// Flips the colour scheme.
    pub fn toggle_dark_mode(&mut self)
        ensures
            final(self)@ == (HeadlinesView {
                config: ConfigView { dark_mode: !old(self)@.config.dark_mode, ..old(self)@.config },
                ..old(self)@
            }),
    {
        self.config.dark_mode = !self.config.dark_mode;
        proof {
            assert(self@ =~= (HeadlinesView {
                config: ConfigView { dark_mode: !old(self)@.config.dark_mode, ..old(self)@.config },
                ..old(self)@
            }));
        }
    }

    /// Starts a fetch when one may start: a fresh session channel is
    /// installed and the job for the background worker is handed back. With
    /// no fetch may start — key refused, or one already started — nothing
    /// moves and no job is handed back.
    pub fn load_data(&mut self) -> (job: Option<FetchJob>)
        ensures
            can_start_fetch(old(self)@) ==> {
                &&& final(self)@ == started(old(self)@)
                &&& job matches Some(j) && j@.api_key == old(self)@.config.api_key
            },
            !can_start_fetch(old(self)@) ==> final(self)@ == old(self)@ && job is None,
    {
        if !self.data_is_set && self.config.api_key.as_str().unicode_len() == KEY_LEN {
            let api_key = self.config.api_key.clone();
            let (tx, rx) = new_channel();
            self.news_rx = Some(rx);
            self.data_is_set = true;
            self.fetch_error = None;
            proof {
                assert(self@ =~= started(old(self)@));
            }
            Some(FetchJob { api_key, sender: tx })
        } else {
            None
        }
    }

    /// A refresh request: the display list and any error are cleared, the
    /// one-fetch latch is reset, and a new fetch starts when the key is
    /// accepted. Any session still live is discarded when the new one takes
    /// its place.
    pub fn refresh_data(&mut self) -> (job: Option<FetchJob>)
        ensures
            final(self)@ == refreshed(old(self)@),
            (job is Some) == key_ok(old(self)@.config.api_key),
            job matches Some(j) ==> j@.api_key == old(self)@.config.api_key,
    {
        self.data_is_set = false;
        self.articles = Vec::new();
        self.fetch_error = None;
        let job = self.load_data();
        proof {
            assert(self@ =~= refreshed(old(self)@));
        }
        job
    }

    /// Applies one poll outcome to the state, exactly as `poll_step` says.
    pub fn apply_poll(&mut self, o: PollOutcome)
        ensures
            final(self)@ == poll_step(old(self)@, o@),
    {
        if self.news_rx.is_some() {
            match o {
                PollOutcome::Received(c) => {
                    self.articles.push(c);
                    proof {
                        assert(self@ =~= poll_step(old(self)@, o@));
                    }
                },
                PollOutcome::Empty => {},
                PollOutcome::Closed => {
                    self.news_rx = None;
                    proof {
                        assert(self@ =~= poll_step(old(self)@, o@));
                    }
                },
            }
        }
    }

    /// One non-blocking look at the session's channel, applied to the
    /// state. Whatever the channel yields, the state takes one `poll_step`;
    /// without a live session this is a no-op.
    pub fn preload_articles(&mut self)
        ensures
            exists|o: PollOutcomeView| final(self)@ == poll_step(old(self)@, o),
            !old(self)@.has_session ==> final(self)@ == old(self)@,
    {
        let o = match &self.news_rx {
            None => {
                proof {
                    assert(self@ == poll_step(old(self)@, PollOutcomeView::Empty));
                }
                return;
            },
            Some(rx) => try_recv_card(rx),
        };
        self.apply_poll(o);
        proof {
            assert(self@ == poll_step(old(self)@, o@));
        }
    }

    /// One UI frame's worth of state work: the first frame after the key is
    /// confirmed starts the fetch, and a live session is polled once. The
    /// job, when one is handed back, is the frame's fetch to run.
    pub fn frame_tick(&mut self) -> (job: Option<FetchJob>)
        ensures
            exists|o: PollOutcomeView| final(self)@ == poll_step(ticked(old(self)@), o),
            (job is Some) == (initial_load_pending(old(self)@) && can_start_fetch(old(self)@)),
            job matches Some(j) ==> j@.api_key == old(self)@.config.api_key,
    {
        let job = if !self.initial_is_set && self.api_key_initialized {
            let j = self.load_data();
            self.initial_is_set = true;
            j
        } else {
            None
        };
        proof {
            assert(self@ =~= ticked(old(self)@));
        }
        if self.news_rx.is_some() {
            self.preload_articles();
        } else {
            proof {
                assert(self@ == poll_step(ticked(old(self)@), PollOutcomeView::Empty));
            }
        }
        job
    }

    /// Reports a failed fetch: the session is over and the message stays on
    /// display until the next fetch starts.
    pub fn fetch_failed(&mut self, msg: String)
        ensures
            final(self)@ == failed(old(self)@, msg@),
    {
        self.news_rx = None;
        self.fetch_error = Some(msg);
        proof {
            assert(self@ =~= failed(old(self)@, msg@));
        }
    }
}

} // verus!

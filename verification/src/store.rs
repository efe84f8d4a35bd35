use vstd::prelude::*;

verus! {

/// One write request as received by the OS proxy configuration store:
/// the value name together with its payload. `SetEnable` carries the
/// boolean-as-integer `ProxyEnable` value, `SetServer` the `ProxyServer`
/// `host:port` text, and `SetOverride` the `ProxyOverride` bypass list.
#[derive(Clone, Debug)]
pub enum WriteRequest {
    SetEnable(u32),
    SetServer(String),
    SetOverride(String),
}

/// Ghost image of a write request, with text as a character sequence.
pub enum WriteImage {
    SetEnable(u32),
    SetServer(Seq<char>),
    SetOverride(Seq<char>),
}

/// The ghost image of one recorded write request.
pub open spec fn write_image(r: WriteRequest) -> WriteImage {
    match r {
        WriteRequest::SetEnable(v) => WriteImage::SetEnable(v),
        WriteRequest::SetServer(t) => WriteImage::SetServer(t@),
        WriteRequest::SetOverride(t) => WriteImage::SetOverride(t@),
    }
}

/// Ghost state of a proxy configuration store: whether it can be reached,
/// which single-shot write faults are still pending, the three stored
/// values, the record of every write attempt, and how many change
/// notifications have been broadcast.
#[verifier::ext_equal]
pub struct StoreState {
    pub accessible: bool,
    pub fail_enable_once: bool,
    pub fail_server_once: bool,
    pub fail_override_once: bool,
    pub enable_value: u32,
    pub server_value: Seq<char>,
    pub override_value: Seq<char>,
    pub log: Seq<WriteImage>,
    pub notify_count: nat,
}

impl StoreState {
    /// A store that is reachable and has no pending write fault.
    pub open spec fn healthy(self) -> bool {
        self.accessible && !self.fail_enable_once && !self.fail_server_once
            && !self.fail_override_once
    }

    /// The three stored proxy values, disregarding faults, log and counter.
    pub open spec fn values(self) -> (u32, Seq<char>, Seq<char>) {
        (self.enable_value, self.server_value, self.override_value)
    }
}

/// An in-memory proxy configuration store. It keeps the three values that
/// the controller touches (`ProxyEnable`, `ProxyServer`, `ProxyOverride`),
/// records every write request it receives, counts change-notification
/// broadcasts, and can be told to refuse the next write to a given value
/// (a single-shot injected fault) or to refuse access altogether.
///
/// This is the store the controller is verified against; an executor that
/// forwards the same write requests to the platform's real configuration
/// store lives outside the verified library.
#[derive(Clone, Debug)]
pub struct ProxyStore {
    pub accessible: bool,
    pub fail_enable_once: bool,
    pub fail_server_once: bool,
    pub fail_override_once: bool,
    pub enable_value: u32,
    pub server_value: String,
    pub override_value: String,
    pub log: Vec<WriteRequest>,
    pub notify_count: u64,
}

impl View for ProxyStore {
    type V = StoreState;

    open spec fn view(&self) -> StoreState {
        StoreState {
            accessible: self.accessible,
            fail_enable_once: self.fail_enable_once,
            fail_server_once: self.fail_server_once,
            fail_override_once: self.fail_override_once,
            enable_value: self.enable_value,
            server_value: self.server_value@,
            override_value: self.override_value@,
            log: self.log@.map(|i: int, r: WriteRequest| write_image(r)),
            notify_count: self.notify_count as nat,
        }
    }
}

/// The state of a freshly constructed healthy store: reachable, no pending
/// fault, proxy disabled, empty values, nothing recorded.
pub open spec fn fresh_store() -> StoreState {
    StoreState {
        accessible: true,
        fail_enable_once: false,
        fail_server_once: false,
        fail_override_once: false,
        enable_value: 0,
        server_value: Seq::empty(),
        override_value: Seq::empty(),
        log: Seq::empty(),
        notify_count: 0,
    }
}

/// `s` with `e` appended to the record of write attempts.
pub open spec fn log_write(s: StoreState, e: WriteImage) -> StoreState {
    StoreState { log: s.log.push(e), ..s }
}

/// Writing `value` to `ProxyEnable`: the attempt is always recorded; a
/// pending single-shot fault swallows the write (and is spent), otherwise
/// the stored value changes and the write reports success.
pub open spec fn spec_write_enable(s: StoreState, value: u32) -> (StoreState, bool) {
    let logged = log_write(s, WriteImage::SetEnable(value));
    if s.fail_enable_once {
        (StoreState { fail_enable_once: false, ..logged }, false)
    } else {
        (StoreState { enable_value: value, ..logged }, true)
    }
}

/// Writing `value` to `ProxyServer`; same fault discipline as `spec_write_enable`.
pub open spec fn spec_write_server(s: StoreState, value: Seq<char>) -> (StoreState, bool) {
    let logged = log_write(s, WriteImage::SetServer(value));
    if s.fail_server_once {
        (StoreState { fail_server_once: false, ..logged }, false)
    } else {
        (StoreState { server_value: value, ..logged }, true)
    }
}

/// Writing `value` to `ProxyOverride`; same fault discipline as `spec_write_enable`.
pub open spec fn spec_write_override(s: StoreState, value: Seq<char>) -> (StoreState, bool) {
    let logged = log_write(s, WriteImage::SetOverride(value));
    if s.fail_override_once {
        (StoreState { fail_override_once: false, ..logged }, false)
    } else {
        (StoreState { override_value: value, ..logged }, true)
    }
}

/// Broadcasting a settings-change notification bumps the counter.
pub open spec fn spec_notify(s: StoreState) -> StoreState {
    StoreState { notify_count: s.notify_count + 1, ..s }
}

impl ProxyStore {
    /// A healthy store with the proxy disabled and nothing recorded.
    pub fn new_healthy() -> (s: Self)
        ensures
            s@ == fresh_store(),
    {
        let s = ProxyStore {
            accessible: true,
            fail_enable_once: false,
            fail_server_once: false,
            fail_override_once: false,
            enable_value: 0,
            server_value: String::new(),
            override_value: String::new(),
            log: Vec::new(),
            notify_count: 0,
        };
        proof {
            assert(s@ =~~= fresh_store());
        }
        s
    }

    /// Whether the store can be read and written at all.
    pub fn check_access(&self) -> (ok: bool)
        ensures
            ok == self@.accessible,
    {
        self.accessible
    }

    /// Requests a write of `ProxyEnable`; reports whether the store took it.
    pub fn write_enable(&mut self, value: u32) -> (ok: bool)
        ensures
            final(self)@ == spec_write_enable(old(self)@, value).0,
            ok == spec_write_enable(old(self)@, value).1,
    {
        self.log.push(WriteRequest::SetEnable(value));
        let ok: bool = if self.fail_enable_once {
            self.fail_enable_once = false;
            false
        } else {
            self.enable_value = value;
            true
        };
        proof {
            assert(self@ =~~= spec_write_enable(old(self)@, value).0);
        }
        ok
    }

    /// Requests a write of `ProxyServer`; reports whether the store took it.
    pub fn write_server(&mut self, value: String) -> (ok: bool)
        ensures
            final(self)@ == spec_write_server(old(self)@, value@).0,
            ok == spec_write_server(old(self)@, value@).1,
    {
        let ghost v = value@;
        let taken = !self.fail_server_once;
        if taken {
            self.log.push(WriteRequest::SetServer(value.clone()));
            self.server_value = value;
        } else {
            self.log.push(WriteRequest::SetServer(value));
            self.fail_server_once = false;
        }
        proof {
            assert(self@ =~~= spec_write_server(old(self)@, v).0);
        }
        taken
    }

    /// Requests a write of `ProxyOverride`; reports whether the store took it.
    pub fn write_override(&mut self, value: String) -> (ok: bool)
        ensures
            final(self)@ == spec_write_override(old(self)@, value@).0,
            ok == spec_write_override(old(self)@, value@).1,
    {
        let ghost v = value@;
        let taken = !self.fail_override_once;
        if taken {
            self.log.push(WriteRequest::SetOverride(value.clone()));
            self.override_value = value;
        } else {
            self.log.push(WriteRequest::SetOverride(value));
            self.fail_override_once = false;
        }
        proof {
            assert(self@ =~~= spec_write_override(old(self)@, v).0);
        }
        taken
    }

    /// Broadcasts the settings-change notification to the store's consumers.
    pub fn notify_settings_changed(&mut self)
        requires
            old(self)@.notify_count < u64::MAX,
        ensures
            final(self)@ == spec_notify(old(self)@),
    {
        self.notify_count = self.notify_count + 1;
        proof {
            assert(self@ =~~= spec_notify(old(self)@));
        }
    }
}

} // verus!

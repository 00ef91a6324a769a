use vstd::prelude::*;

use crate::account::Account;
use crate::stream::{fresh_stream, open_error, Stream, StreamModel};
use crate::types::{StreamError, StreamEvent};

verus! {

/// The token the ledger streams and the address allowed to intervene in any stream.
#[derive(Debug)]
pub struct Config {
    pub token: Account,
    pub admin: Account,
}

/// The value of a [`Config`].
pub struct ConfigModel {
    pub token: Seq<u8>,
    pub admin: Seq<u8>,
}

impl View for Config {
    type V = ConfigModel;

    open spec fn view(&self) -> ConfigModel {
        ConfigModel { token: self.token@, admin: self.admin@ }
    }
}

impl Config {
    /// A second value equal to this one.
    pub fn snapshot(&self) -> (r: Config)
        ensures
            r@ == self@,
    {
        Config { token: self.token.duplicate(), admin: self.admin.duplicate() }
    }
}

/// A movement of the streamed token that an operation asks the host to make.
#[derive(Debug)]
pub enum Transfer {
    /// From an account into the ledger's own balance.
    IntoLedger { from: Account, amount: i128 },
    /// From the ledger's own balance to an account.
    OutOfLedger { to: Account, amount: i128 },
}

/// The value of a [`Transfer`].
pub enum TransferModel {
    IntoLedger { from: Seq<u8>, amount: i128 },
    OutOfLedger { to: Seq<u8>, amount: i128 },
}

impl View for Transfer {
    type V = TransferModel;

    open spec fn view(&self) -> TransferModel {
        match self {
            Transfer::IntoLedger { from, amount } => TransferModel::IntoLedger {
                from: from@,
                amount: *amount,
            },
            Transfer::OutOfLedger { to, amount } => TransferModel::OutOfLedger {
                to: to@,
                amount: *amount,
            },
        }
    }
}

/// What the host must do for an accepted operation: have `authorizer` sign
/// the call, make the transfer, publish the event.
#[derive(Debug)]
pub struct Receipt {
    pub authorizer: Account,
    pub transfer: Option<Transfer>,
    pub event: Option<StreamEvent>,
}

/// The value of a [`Receipt`].
pub struct ReceiptModel {
    pub authorizer: Seq<u8>,
    pub transfer: Option<TransferModel>,
    pub event: Option<StreamEvent>,
}

impl View for Receipt {
    type V = ReceiptModel;

    open spec fn view(&self) -> ReceiptModel {
        ReceiptModel {
            authorizer: self.authorizer@,
            transfer: match self.transfer {
                Some(t) => Some(t@),
                None => None,
            },
            event: self.event,
        }
    }
}

/// The whole state of the streaming ledger.
pub struct FluxoraStream {
    config: Option<Config>,
    streams: Vec<Stream>,
}

/// The value of a [`FluxoraStream`]: its configuration and its streams, stream `i` at index `i`.
pub struct LedgerModel {
    pub config: Option<ConfigModel>,
    pub streams: Seq<StreamModel>,
}

impl View for FluxoraStream {
    type V = LedgerModel;

    closed spec fn view(&self) -> LedgerModel {
        LedgerModel {
            config: match self.config {
                Some(c) => Some(c@),
                None => None,
            },
            streams: self.streams@.map_values(|s: Stream| s@),
        }
    }
}

/// A receipt with no transfer.
pub open spec fn plain_receipt(authorizer: Seq<u8>, event: Option<StreamEvent>) -> ReceiptModel {
    ReceiptModel { authorizer, transfer: None, event }
}

/// The ledger as it stands before initialisation.
pub open spec fn empty_ledger() -> LedgerModel {
    LedgerModel { config: None, streams: Seq::empty() }
}

impl LedgerModel {
    /// Stream ids are indices, every stream is well formed, and streams exist only once configured.
    pub open spec fn wf(self) -> bool {
        &&& forall|i: int|
            0 <= i < self.streams.len() ==> (#[trigger] self.streams[i]).stream_id == i
                && self.streams[i].wf()
        &&& self.streams.len() <= u64::MAX
        &&& self.streams.len() > 0 ==> self.config is Some
    }

    /// The id the next created stream receives.
    pub open spec fn next_stream_id(self) -> int {
        self.streams.len() as int
    }

    /// Stream `id`, if it exists.
    pub open spec fn stream(self, id: u64) -> Option<StreamModel> {
        if id < self.streams.len() {
            Some(self.streams[id as int])
        } else {
            None
        }
    }

    /// The ledger with stream `id` replaced by `s`.
    pub open spec fn with_stream(self, id: u64, s: StreamModel) -> LedgerModel {
        LedgerModel { streams: self.streams.update(id as int, s), ..self }
    }

    /// Who must authorise a change to stream `s`: its sender, or on the admin path the admin.
    pub open spec fn controller(self, s: StreamModel, as_admin: bool) -> Seq<u8> {
        if as_admin {
            self.config.unwrap().admin
        } else {
            s.sender
        }
    }

    /// Initialisation: allowed once; the admin authorises it.
    pub open spec fn init_step(self, token: Seq<u8>, admin: Seq<u8>) -> Result<(LedgerModel, ReceiptModel), StreamError> {
        if self.config is Some {
            Err(StreamError::AlreadyInitialised)
        } else {
            Ok(
                (
                    LedgerModel { config: Some(ConfigModel { token, admin }), ..self },
                    plain_receipt(admin, None),
                ),
            )
        }
    }

    /// Creation: the parameters are checked (see [`open_error`]), the ledger
    /// must be configured, the new stream gets the next id, and the sender
    /// authorises and pays the deposit into the ledger.
    pub open spec fn create_step(
        self,
        sender: Seq<u8>,
        recipient: Seq<u8>,
        deposit: i128,
        rate: i128,
        start: u64,
        cliff: u64,
        end: u64,
    ) -> Result<(LedgerModel, u64, ReceiptModel), StreamError> {
        if open_error(sender, recipient, deposit, rate, start, cliff, end) is Some {
            Err(open_error(sender, recipient, deposit, rate, start, cliff, end).unwrap())
        } else if self.config is None {
            Err(StreamError::NotInitialised)
        } else {
            let id = self.streams.len() as u64;
            Ok(
                (
                    LedgerModel {
                        streams: self.streams.push(
                            fresh_stream(id, sender, recipient, deposit, rate, start, cliff, end),
                        ),
                        ..self
                    },
                    id,
                    ReceiptModel {
                        authorizer: sender,
                        transfer: Some(TransferModel::IntoLedger { from: sender, amount: deposit }),
                        event: None,
                    },
                ),
            )
        }
    }

    /// Pausing stream `id`.
    pub open spec fn pause_step(self, id: u64, as_admin: bool) -> Result<(LedgerModel, ReceiptModel), StreamError> {
        match self.stream(id) {
            None => Err(StreamError::StreamNotFound),
            Some(s) => match s.paused() {
                Err(e) => Err(e),
                Ok(m) => Ok(
                    (
                        self.with_stream(id, m),
                        plain_receipt(self.controller(s, as_admin), Some(StreamEvent::Paused(id))),
                    ),
                ),
            },
        }
    }

    /// Resuming stream `id`; its sender authorises it.
    pub open spec fn resume_step(self, id: u64) -> Result<(LedgerModel, ReceiptModel), StreamError> {
        match self.stream(id) {
            None => Err(StreamError::StreamNotFound),
            Some(s) => match s.resumed() {
                Err(e) => Err(e),
                Ok(m) => Ok(
                    (
                        self.with_stream(id, m),
                        plain_receipt(s.sender, Some(StreamEvent::Resumed(id))),
                    ),
                ),
            },
        }
    }

    /// Cancelling stream `id` at `now`: the unaccrued part of the deposit, when
    /// there is one, goes back to the sender.
    pub open spec fn cancel_step(self, id: u64, now: u64, as_admin: bool) -> Result<(LedgerModel, ReceiptModel), StreamError> {
        match self.stream(id) {
            None => Err(StreamError::StreamNotFound),
            Some(s) => match s.cancelled(now) {
                Err(e) => Err(e),
                Ok((m, refund)) => Ok(
                    (
                        self.with_stream(id, m),
                        ReceiptModel {
                            authorizer: self.controller(s, as_admin),
                            transfer: if refund > 0 {
                                Some(TransferModel::OutOfLedger { to: s.sender, amount: refund as i128 })
                            } else {
                                None
                            },
                            event: Some(StreamEvent::Cancelled(id)),
                        },
                    ),
                ),
            },
        }
    }

    /// Withdrawing from stream `id` at `now`; the recipient authorises it and is paid.
    pub open spec fn withdraw_step(self, id: u64, now: u64) -> Result<(LedgerModel, i128, ReceiptModel), StreamError> {
        match self.stream(id) {
            None => Err(StreamError::StreamNotFound),
            Some(s) => match s.withdrawn(now) {
                Err(e) => Err(e),
                Ok((m, amount)) => Ok(
                    (
                        self.with_stream(id, m),
                        amount as i128,
                        ReceiptModel {
                            authorizer: s.recipient,
                            transfer: Some(TransferModel::OutOfLedger { to: s.recipient, amount: amount as i128 }),
                            event: None,
                        },
                    ),
                ),
            },
        }
    }
}

impl FluxoraStream {
    /// A ledger that has not been initialised and holds no stream.
    pub fn new() -> (r: FluxoraStream)
        ensures
            r@ == empty_ledger(),
            r@.wf(),
    {
        let r = FluxoraStream { config: None, streams: Vec::new() };
        assert(r@.streams =~= Seq::<StreamModel>::empty());
        r
    }

    /// Index of stream `id`, if it exists.
    fn position(&self, id: u64) -> (r: Option<usize>)
        ensures
            r matches Some(i) ==> i == id && i < self.streams@.len(),
            r is None ==> id >= self.streams@.len(),
    {
        let n: usize = self.streams.len();
        if id < n as u64 {
            Some(id as usize)
        } else {
            None
        }
    }

    proof fn lemma_view_streams(&self)
        ensures
            self@.streams.len() == self.streams@.len(),
            forall|i: int| 0 <= i < self.streams@.len() ==> #[trigger] self@.streams[i] == self.streams@[i]@,
    {
    }

    /// Stores `s` as stream `i`.
    fn put(&mut self, i: usize, s: Stream)
        requires
            i < old(self).streams@.len(),
        ensures
            final(self)@ == old(self)@.with_stream(i as u64, s@),
    {
        proof {
            old(self).lemma_view_streams();
        }
        self.streams.set(i, s);
        proof {
            self.lemma_view_streams();
            assert(self@.streams =~= old(self)@.streams.update(i as int, s@));
        }
    }
}


impl FluxoraStream {
    /// Sets the token and the admin; refused once the ledger is configured (see [`LedgerModel::init_step`]).
    pub fn init(&mut self, token: Account, admin: Account) -> (r: Result<Receipt, StreamError>)
        requires
            old(self)@.wf(),
        ensures
            final(self)@.wf(),
            match old(self)@.init_step(token@, admin@) {
                Ok((l, rc)) => r matches Ok(x) && x@ == rc && final(self)@ == l,
                Err(e) => r == Err::<Receipt, StreamError>(e) && final(self)@ == old(self)@,
            },
    {
        if self.config.is_some() {
            return Err(StreamError::AlreadyInitialised);
        }
        let authorizer = admin.duplicate();
        self.config = Some(Config { token, admin });
        Ok(Receipt { authorizer, transfer: None, event: None })
    }

    /// The configuration; refused before initialisation.
    pub fn get_config(&self) -> (r: Result<Config, StreamError>)
        ensures
            match self@.config {
                Some(c) => r matches Ok(x) && x@ == c,
                None => r == Err::<Config, StreamError>(StreamError::NotInitialised),
            },
    {
        match &self.config {
            Some(c) => Ok(c.snapshot()),
            None => Err(StreamError::NotInitialised),
        }
    }

    /// Opens a stream and returns its id (see [`LedgerModel::create_step`]).
    pub fn create_stream(
        &mut self,
        sender: Account,
        recipient: Account,
        deposit_amount: i128,
        rate_per_second: i128,
        start_time: u64,
        cliff_time: u64,
        end_time: u64,
    ) -> (r: Result<(u64, Receipt), StreamError>)
        requires
            old(self)@.wf(),
        ensures
            final(self)@.wf(),
            match old(self)@.create_step(
                sender@,
                recipient@,
                deposit_amount,
                rate_per_second,
                start_time,
                cliff_time,
                end_time,
            ) {
                Ok((l, id, rc)) => r matches Ok((x, y)) && x == id && y@ == rc && final(self)@ == l,
                Err(e) => r == Err::<(u64, Receipt), StreamError>(e) && final(self)@ == old(self)@,
            },
    {
        proof {
            self.lemma_view_streams();
        }
        let n: usize = self.streams.len();
        let id: u64 = n as u64;
        let payer = sender.duplicate();
        let authorizer = sender.duplicate();
        let opened = Stream::open(
            id,
            sender,
            recipient,
            deposit_amount,
            rate_per_second,
            start_time,
            cliff_time,
            end_time,
        );
        let s = match opened {
            Ok(s) => s,
            Err(e) => {
                return Err(e);
            },
        };
        if self.config.is_none() {
            return Err(StreamError::NotInitialised);
        }
        self.streams.push(s);
        proof {
            self.lemma_view_streams();
            assert(self.streams.len() == self.streams@.len());
            assert(self@.streams =~= old(self)@.streams.push(s@));
        }
        Ok(
            (
                id,
                Receipt {
                    authorizer,
                    transfer: Some(Transfer::IntoLedger { from: payer, amount: deposit_amount }),
                    event: None,
                },
            ),
        )
    }

    /// Stream `id` as it stands.
    pub fn get_stream_state(&self, id: u64) -> (r: Result<Stream, StreamError>)
        ensures
            match self@.stream(id) {
                Some(s) => r matches Ok(x) && x@ == s,
                None => r == Err::<Stream, StreamError>(StreamError::StreamNotFound),
            },
    {
        proof {
            self.lemma_view_streams();
        }
        match self.position(id) {
            Some(i) => Ok(self.streams[i].snapshot()),
            None => Err(StreamError::StreamNotFound),
        }
    }

    /// What has accrued on stream `id` at `now` (see [`StreamModel::accrued_at`]).
    pub fn calculate_accrued(&self, id: u64, now: u64) -> (r: Result<i128, StreamError>)
        ensures
            match self@.stream(id) {
                Some(s) => r matches Ok(x) && x == s.accrued_at(now),
                None => r == Err::<i128, StreamError>(StreamError::StreamNotFound),
            },
    {
        proof {
            self.lemma_view_streams();
        }
        match self.position(id) {
            Some(i) => Ok(self.streams[i].accrued_at(now)),
            None => Err(StreamError::StreamNotFound),
        }
    }

    /// Who changes stream `s` on this path: its sender, or the admin.
    fn controller_of(&self, s: &Stream, as_admin: bool) -> (r: Account)
        requires
            as_admin ==> self@.config is Some,
        ensures
            r@ == self@.controller(s@, as_admin),
    {
        if as_admin {
            match &self.config {
                Some(c) => c.admin.duplicate(),
                None => s.sender.duplicate(),
            }
        } else {
            s.sender.duplicate()
        }
    }

    fn pause_path(&mut self, id: u64, as_admin: bool) -> (r: Result<Receipt, StreamError>)
        requires
            old(self)@.wf(),
        ensures
            final(self)@.wf(),
            match old(self)@.pause_step(id, as_admin) {
                Ok((l, rc)) => r matches Ok(x) && x@ == rc && final(self)@ == l,
                Err(e) => r == Err::<Receipt, StreamError>(e) && final(self)@ == old(self)@,
            },
    {
        proof {
            self.lemma_view_streams();
        }
        let i = match self.position(id) {
            Some(i) => i,
            None => {
                return Err(StreamError::StreamNotFound);
            },
        };
        let mut s = self.streams[i].snapshot();
        match s.pause() {
            Ok(()) => {},
            Err(e) => {
                return Err(e);
            },
        }
        let authorizer = self.controller_of(&self.streams[i], as_admin);
        self.put(i, s);
        Ok(Receipt { authorizer, transfer: None, event: Some(StreamEvent::Paused(id)) })
    }

    /// Pauses stream `id` on its sender's authority (see [`LedgerModel::pause_step`]).
    pub fn pause_stream(&mut self, id: u64) -> (r: Result<Receipt, StreamError>)
        requires
            old(self)@.wf(),
        ensures
            final(self)@.wf(),
            match old(self)@.pause_step(id, false) {
                Ok((l, rc)) => r matches Ok(x) && x@ == rc && final(self)@ == l,
                Err(e) => r == Err::<Receipt, StreamError>(e) && final(self)@ == old(self)@,
            },
    {
        self.pause_path(id, false)
    }

    /// Pauses stream `id` on the admin's authority (see [`LedgerModel::pause_step`]).
    pub fn pause_stream_as_admin(&mut self, id: u64) -> (r: Result<Receipt, StreamError>)
        requires
            old(self)@.wf(),
        ensures
            final(self)@.wf(),
            match old(self)@.pause_step(id, true) {
                Ok((l, rc)) => r matches Ok(x) && x@ == rc && final(self)@ == l,
                Err(e) => r == Err::<Receipt, StreamError>(e) && final(self)@ == old(self)@,
            },
    {
        self.pause_path(id, true)
    }

    /// Resumes stream `id` on its sender's authority (see [`LedgerModel::resume_step`]).
    pub fn resume_stream(&mut self, id: u64) -> (r: Result<Receipt, StreamError>)
        requires
            old(self)@.wf(),
        ensures
            final(self)@.wf(),
            match old(self)@.resume_step(id) {
                Ok((l, rc)) => r matches Ok(x) && x@ == rc && final(self)@ == l,
                Err(e) => r == Err::<Receipt, StreamError>(e) && final(self)@ == old(self)@,
            },
    {
        proof {
            self.lemma_view_streams();
        }
        let i = match self.position(id) {
            Some(i) => i,
            None => {
                return Err(StreamError::StreamNotFound);
            },
        };
        let mut s = self.streams[i].snapshot();
        match s.resume() {
            Ok(()) => {},
            Err(e) => {
                return Err(e);
            },
        }
        let authorizer = s.sender.duplicate();
        self.put(i, s);
        Ok(Receipt { authorizer, transfer: None, event: Some(StreamEvent::Resumed(id)) })
    }

    fn cancel_path(&mut self, id: u64, now: u64, as_admin: bool) -> (r: Result<Receipt, StreamError>)
        requires
            old(self)@.wf(),
        ensures
            final(self)@.wf(),
            match old(self)@.cancel_step(id, now, as_admin) {
                Ok((l, rc)) => r matches Ok(x) && x@ == rc && final(self)@ == l,
                Err(e) => r == Err::<Receipt, StreamError>(e) && final(self)@ == old(self)@,
            },
    {
        proof {
            self.lemma_view_streams();
        }
        let i = match self.position(id) {
            Some(i) => i,
            None => {
                return Err(StreamError::StreamNotFound);
            },
        };
        let mut s = self.streams[i].snapshot();
        let refund: i128 = match s.cancel(now) {
            Ok(v) => v,
            Err(e) => {
                return Err(e);
            },
        };
        let authorizer = self.controller_of(&self.streams[i], as_admin);
        let transfer = if refund > 0 {
            Some(Transfer::OutOfLedger { to: s.sender.duplicate(), amount: refund })
        } else {
            None
        };
        self.put(i, s);
        Ok(Receipt { authorizer, transfer, event: Some(StreamEvent::Cancelled(id)) })
    }

    /// Cancels stream `id` at `now` on its sender's authority (see [`LedgerModel::cancel_step`]).
    pub fn cancel_stream(&mut self, id: u64, now: u64) -> (r: Result<Receipt, StreamError>)
        requires
            old(self)@.wf(),
        ensures
            final(self)@.wf(),
            match old(self)@.cancel_step(id, now, false) {
                Ok((l, rc)) => r matches Ok(x) && x@ == rc && final(self)@ == l,
                Err(e) => r == Err::<Receipt, StreamError>(e) && final(self)@ == old(self)@,
            },
    {
        self.cancel_path(id, now, false)
    }

    /// Cancels stream `id` at `now` on the admin's authority (see [`LedgerModel::cancel_step`]).
    pub fn cancel_stream_as_admin(&mut self, id: u64, now: u64) -> (r: Result<Receipt, StreamError>)
        requires
            old(self)@.wf(),
        ensures
            final(self)@.wf(),
            match old(self)@.cancel_step(id, now, true) {
                Ok((l, rc)) => r matches Ok(x) && x@ == rc && final(self)@ == l,
                Err(e) => r == Err::<Receipt, StreamError>(e) && final(self)@ == old(self)@,
            },
    {
        self.cancel_path(id, now, true)
    }

    /// Pays the recipient of stream `id` what is withdrawable at `now` and
    /// returns that amount (see [`LedgerModel::withdraw_step`]).
    pub fn withdraw(&mut self, id: u64, now: u64) -> (r: Result<(i128, Receipt), StreamError>)
        requires
            old(self)@.wf(),
        ensures
            final(self)@.wf(),
            match old(self)@.withdraw_step(id, now) {
                Ok((l, amount, rc)) => r matches Ok((x, y)) && x == amount && y@ == rc && final(self)@ == l,
                Err(e) => r == Err::<(i128, Receipt), StreamError>(e) && final(self)@ == old(self)@,
            },
    {
        proof {
            self.lemma_view_streams();
        }
        let i = match self.position(id) {
            Some(i) => i,
            None => {
                return Err(StreamError::StreamNotFound);
            },
        };
        let mut s = self.streams[i].snapshot();
        let amount: i128 = match s.withdraw(now) {
            Ok(v) => v,
            Err(e) => {
                return Err(e);
            },
        };
        let authorizer = s.recipient.duplicate();
        let payee = s.recipient.duplicate();
        self.put(i, s);
        Ok((amount, Receipt { authorizer, transfer: Some(Transfer::OutOfLedger { to: payee, amount }), event: None }))
    }
}


/// The value of an optional configuration.
pub open spec fn config_model(c: Option<Config>) -> Option<ConfigModel> {
    match c {
        Some(c) => Some(c@),
        None => None,
    }
}

/// The ledger value made of these parts.
pub open spec fn ledger_of(config: Option<ConfigModel>, streams: Seq<StreamModel>) -> LedgerModel {
    LedgerModel { config, streams }
}

impl FluxoraStream {
    /// Rebuilds a ledger from parts a host kept, if they form a well-formed ledger.
    pub fn restore(config: Option<Config>, streams: Vec<Stream>) -> (r: Option<FluxoraStream>)
        ensures
            ({
                let m = ledger_of(
                    config_model(config),
                    streams@.map_values(|s: Stream| s@),
                );
                &&& r is Some <==> m.wf()
                &&& r matches Some(l) ==> l@ == m
            }),
    {
        let ghost m = ledger_of(
            config_model(config),
            streams@.map_values(|s: Stream| s@),
        );
        let n: usize = streams.len();
        if n > 0 && config.is_none() {
            return None;
        }
        let mut i: usize = 0;
        while i < n
            invariant
                n == streams@.len(),
                i <= n,
                m == ledger_of(
                    config_model(config),
                    streams@.map_values(|s: Stream| s@),
                ),
                forall|j: int| 0 <= j < i ==> (#[trigger] m.streams[j]).stream_id == j && m.streams[j].wf(),
            decreases n - i,
        {
            assert(m.streams[i as int] == streams@[i as int]@);
            if streams[i].stream_id != i as u64 || !streams[i].is_well_formed() {
                return None;
            }
            i = i + 1;
        }
        let r = FluxoraStream { config, streams };
        assert(r@.streams =~= m.streams);
        Some(r)
    }

    /// Copies of the configuration and of every stream, in id order.
    pub fn export(&self) -> (r: (Option<Config>, Vec<Stream>))
        ensures
            ledger_of(
                config_model(r.0),
                r.1@.map_values(|s: Stream| s@),
            ) == self@,
    {
        proof {
            self.lemma_view_streams();
        }
        let config = match &self.config {
            Some(c) => Some(c.snapshot()),
            None => None,
        };
        let mut out: Vec<Stream> = Vec::new();
        let n: usize = self.streams.len();
        let mut i: usize = 0;
        while i < n
            invariant
                n == self.streams@.len(),
                i <= n,
                out@.len() == i,
                forall|j: int| 0 <= j < i ==> (#[trigger] out@[j])@ == self.streams@[j]@,
            decreases n - i,
        {
            out.push(self.streams[i].snapshot());
            i = i + 1;
        }
        assert(out@.map_values(|s: Stream| s@) =~= self@.streams);
        (config, out)
    }
}

} // verus!

//! The append-only transaction history.
//!
//! Every transfer, mint and burn appends one record; nothing ever mutates or
//! deletes a record, so append order is chronological order.  The two read
//! projections walk an account's records most-recent-first, a page at a
//! time: `get_txs` yields full records, `get_transfers` only transfers, in
//! the minimal `Tx` shape.

use vstd::prelude::*;

verus! {

/// What a record documents, with the parties involved.
pub enum TxAction {
    Transfer { from: String, sender: String, recipient: String },
    Mint { minter: String, recipient: String },
    Burn { burner: String, owner: String },
}

/// A full history record.
pub struct RichTx {
    pub id: u64,
    pub action: TxAction,
    pub amount: u128,
    pub symbol: String,
    pub memo: Option<String>,
    pub block_time: u64,
    pub block_height: u64,
}

/// The minimal projection of a transfer record.
pub struct Tx {
    pub id: u64,
    pub from: String,
    pub sender: String,
    pub receiver: String,
    pub amount: u128,
    pub symbol: String,
    pub memo: Option<String>,
    pub block_time: u64,
    pub block_height: u64,
}

/// Whether `account` is one of the parties of the record.
pub open spec fn involves(t: RichTx, account: Seq<char>) -> bool {
    match t.action {
        TxAction::Transfer { from, sender, recipient } => from@ == account || sender@ == account
            || recipient@ == account,
        TxAction::Mint { minter, recipient } => minter@ == account || recipient@ == account,
        TxAction::Burn { burner, owner } => burner@ == account || owner@ == account,
    }
}

pub open spec fn is_transfer(t: RichTx) -> bool {
    t.action is Transfer
}

/// The records involving `account`, oldest first.
pub open spec fn txs_of(log: Seq<RichTx>, account: Seq<char>) -> Seq<RichTx>
    decreases log.len(),
{
    if log.len() == 0 {
        Seq::empty()
    } else {
        let rest = txs_of(log.drop_last(), account);
        if involves(log.last(), account) {
            rest.push(log.last())
        } else {
            rest
        }
    }
}

/// The transfer records involving `account`, oldest first.
pub open spec fn transfers_of(log: Seq<RichTx>, account: Seq<char>) -> Seq<RichTx>
    decreases log.len(),
{
    if log.len() == 0 {
        Seq::empty()
    } else {
        let rest = transfers_of(log.drop_last(), account);
        if is_transfer(log.last()) && involves(log.last(), account) {
            rest.push(log.last())
        } else {
            rest
        }
    }
}

/// Page `page` (0-indexed, `size` records per page) of `s`, walking `s`
/// most-recent-first.
pub open spec fn page_of(s: Seq<RichTx>, page: int, size: int) -> Seq<RichTx>
    recommends
        0 <= page,
        0 <= size,
{
    let r = s.reverse();
    let start = if page * size <= r.len() {
        page * size
    } else {
        r.len() as int
    };
    let end = if page * size + size <= r.len() {
        page * size + size
    } else {
        r.len() as int
    };
    r.subrange(start, end)
}

/// The minimal projection of a record; meaningful for transfer records.
pub open spec fn as_transfer_tx(t: RichTx) -> Tx {
    Tx {
        id: t.id,
        from: spec_tx_from(t),
        sender: spec_tx_sender(t),
        receiver: spec_tx_receiver(t),
        amount: t.amount,
        symbol: t.symbol,
        memo: t.memo,
        block_time: t.block_time,
        block_height: t.block_height,
    }
}

pub open spec fn spec_tx_from(t: RichTx) -> String {
    match t.action {
        TxAction::Transfer { from, .. } => from,
        TxAction::Mint { minter, .. } => minter,
        TxAction::Burn { owner, .. } => owner,
    }
}

pub open spec fn spec_tx_sender(t: RichTx) -> String {
    match t.action {
        TxAction::Transfer { sender, .. } => sender,
        TxAction::Mint { minter, .. } => minter,
        TxAction::Burn { burner, .. } => burner,
    }
}

pub open spec fn spec_tx_receiver(t: RichTx) -> String {
    match t.action {
        TxAction::Transfer { recipient, .. } => recipient,
        TxAction::Mint { recipient, .. } => recipient,
        TxAction::Burn { owner, .. } => owner,
    }
}

pub proof fn lemma_txs_of_len(log: Seq<RichTx>, account: Seq<char>)
    ensures
        txs_of(log, account).len() <= log.len(),
    decreases log.len(),
{
    if log.len() > 0 {
        lemma_txs_of_len(log.drop_last(), account);
    }
}

pub proof fn lemma_transfers_of_len(log: Seq<RichTx>, account: Seq<char>)
    ensures
        transfers_of(log, account).len() <= log.len(),
    decreases log.len(),
{
    if log.len() > 0 {
        lemma_transfers_of_len(log.drop_last(), account);
    }
}

fn clone_memo(m: &Option<String>) -> (r: Option<String>)
    ensures
        r == *m,
{
    match m {
        Some(s) => Some(s.clone()),
        None => None,
    }
}

impl TxAction {
    pub fn clone_action(&self) -> (r: TxAction)
        ensures
            r == *self,
    {
        match self {
            TxAction::Transfer { from, sender, recipient } => TxAction::Transfer {
                from: from.clone(),
                sender: sender.clone(),
                recipient: recipient.clone(),
            },
            TxAction::Mint { minter, recipient } => TxAction::Mint {
                minter: minter.clone(),
                recipient: recipient.clone(),
            },
            TxAction::Burn { burner, owner } => TxAction::Burn {
                burner: burner.clone(),
                owner: owner.clone(),
            },
        }
    }
}

impl RichTx {
    pub fn clone_tx(&self) -> (r: RichTx)
        ensures
            r == *self,
    {
        RichTx {
            id: self.id,
            action: self.action.clone_action(),
            amount: self.amount,
            symbol: self.symbol.clone(),
            memo: clone_memo(&self.memo),
            block_time: self.block_time,
            block_height: self.block_height,
        }
    }

    fn is_transfer_record(&self) -> (r: bool)
        ensures
            r == is_transfer(*self),
    {
        match &self.action {
            TxAction::Transfer { .. } => true,
            _ => false,
        }
    }

    fn involves_account(&self, account: &String) -> (r: bool)
        ensures
            r == involves(*self, account@),
    {
        match &self.action {
            TxAction::Transfer { from, sender, recipient } => from.eq(account) || sender.eq(
                account,
            ) || recipient.eq(account),
            TxAction::Mint { minter, recipient } => minter.eq(account) || recipient.eq(account),
            TxAction::Burn { burner, owner } => burner.eq(account) || owner.eq(account),
        }
    }

    fn to_tx(&self) -> (r: Tx)
        ensures
            r == as_transfer_tx(*self),
    {
        let (f, s, rcv) = match &self.action {
            TxAction::Transfer { from, sender, recipient } => (
                from.clone(),
                sender.clone(),
                recipient.clone(),
            ),
            TxAction::Mint { minter, recipient } => (
                minter.clone(),
                minter.clone(),
                recipient.clone(),
            ),
            TxAction::Burn { burner, owner } => (owner.clone(), burner.clone(), owner.clone()),
        };
        Tx {
            id: self.id,
            from: f,
            sender: s,
            receiver: rcv,
            amount: self.amount,
            symbol: self.symbol.clone(),
            memo: clone_memo(&self.memo),
            block_time: self.block_time,
            block_height: self.block_height,
        }
    }
}

/// The whole history of one token instance.
pub struct TxLog {
    pub txs: Vec<RichTx>,
}

impl TxLog {
    pub fn new() -> (r: TxLog)
        ensures
            r.txs@.len() == 0,
    {
        TxLog { txs: Vec::new() }
    }

    pub fn store_transfer(
        &mut self,
        from: String,
        sender: String,
        recipient: String,
        amount: u128,
        symbol: String,
        memo: Option<String>,
        block_height: u64,
        block_time: u64,
    )
        requires
            old(self).txs@.len() < u64::MAX,
        ensures
            final(self).txs@ == old(self).txs@.push(
                (RichTx {
                    id: old(self).txs@.len() as u64,
                    action: TxAction::Transfer { from, sender, recipient },
                    amount,
                    symbol,
                    memo,
                    block_time,
                    block_height,
                }),
            ),
    {
        let id = self.txs.len() as u64;
        self.txs.push(
            RichTx {
                id,
                action: TxAction::Transfer { from, sender, recipient },
                amount,
                symbol,
                memo,
                block_time,
                block_height,
            },
        );
    }

    pub fn store_mint(
        &mut self,
        minter: String,
        recipient: String,
        amount: u128,
        symbol: String,
        memo: Option<String>,
        block_height: u64,
        block_time: u64,
    )
        requires
            old(self).txs@.len() < u64::MAX,
        ensures
            final(self).txs@ == old(self).txs@.push(
                (RichTx {
                    id: old(self).txs@.len() as u64,
                    action: TxAction::Mint { minter, recipient },
                    amount,
                    symbol,
                    memo,
                    block_time,
                    block_height,
                }),
            ),
    {
        let id = self.txs.len() as u64;
        self.txs.push(
            RichTx {
                id,
                action: TxAction::Mint { minter, recipient },
                amount,
                symbol,
                memo,
                block_time,
                block_height,
            },
        );
    }

    pub fn store_burn(
        &mut self,
        burner: String,
        owner: String,
        amount: u128,
        symbol: String,
        memo: Option<String>,
        block_height: u64,
        block_time: u64,
    )
        requires
            old(self).txs@.len() < u64::MAX,
        ensures
            final(self).txs@ == old(self).txs@.push(
                (RichTx {
                    id: old(self).txs@.len() as u64,
                    action: TxAction::Burn { burner, owner },
                    amount,
                    symbol,
                    memo,
                    block_time,
                    block_height,
                }),
            ),
    {
        let id = self.txs.len() as u64;
        self.txs.push(
            RichTx {
                id,
                action: TxAction::Burn { burner, owner },
                amount,
                symbol,
                memo,
                block_time,
                block_height,
            },
        );
    }

    /// The transfer records involving `account`, most recent first, as page
    /// `page` of `page_size` records, together with the total count of such
    /// records.
    pub fn get_transfers(&self, account: &String, page: u32, page_size: u32) -> (r: (Vec<Tx>, u64))
        requires
            self.txs@.len() <= u64::MAX,
        ensures
            r.0@ == page_of(
                transfers_of(self.txs@, account@),
                page as int,
                page_size as int,
            ).map_values(|t: RichTx| as_transfer_tx(t)),
            r.1 == transfers_of(self.txs@, account@).len(),
    {
        let matched = self.collect_transfers(account);
        proof {
            lemma_transfers_of_len(self.txs@, account@);
        }
        let paged = page_records(&matched, page, page_size);
        let total = matched.len() as u64;
        let mut out: Vec<Tx> = Vec::new();
        let n = paged.len();
        for i in 0..n
            invariant
                n == paged@.len(),
                out@.len() == i,
                forall|j: int| 0 <= j < i ==> out@[j] == as_transfer_tx(paged@[j]),
        {
            out.push(paged[i].to_tx());
        }
        proof {
            assert(out@ =~= paged@.map_values(|t: RichTx| as_transfer_tx(t)));
        }
        (out, total)
    }

    /// The records involving `account`, most recent first, as page `page` of
    /// `page_size` records, together with the total count of such records.
    pub fn get_txs(&self, account: &String, page: u32, page_size: u32) -> (r: (Vec<RichTx>, u64))
        requires
            self.txs@.len() <= u64::MAX,
        ensures
            r.0@ == page_of(txs_of(self.txs@, account@), page as int, page_size as int),
            r.1 == txs_of(self.txs@, account@).len(),
    {
        let matched = self.collect_txs(account);
        proof {
            lemma_txs_of_len(self.txs@, account@);
        }
        let paged = page_records(&matched, page, page_size);
        let total = matched.len() as u64;
        (paged, total)
    }

    fn collect_transfers(&self, account: &String) -> (r: Vec<RichTx>)
        ensures
            r@ == transfers_of(self.txs@, account@),
    {
        let mut matched: Vec<RichTx> = Vec::new();
        let n = self.txs.len();
        for i in 0..n
            invariant
                n == self.txs@.len(),
                matched@ == transfers_of(self.txs@.take(i as int), account@),
        {
            let t = &self.txs[i];
            proof {
                assert(self.txs@.take(i + 1).drop_last() =~= self.txs@.take(i as int));
                assert(self.txs@.take(i + 1).last() == self.txs@[i as int]);
            }
            if t.is_transfer_record() && t.involves_account(account) {
                matched.push(t.clone_tx());
            }
        }
        proof {
            assert(self.txs@.take(n as int) =~= self.txs@);
        }
        matched
    }

    fn collect_txs(&self, account: &String) -> (r: Vec<RichTx>)
        ensures
            r@ == txs_of(self.txs@, account@),
    {
        let mut matched: Vec<RichTx> = Vec::new();
        let n = self.txs.len();
        for i in 0..n
            invariant
                n == self.txs@.len(),
                matched@ == txs_of(self.txs@.take(i as int), account@),
        {
            let t = &self.txs[i];
            proof {
                assert(self.txs@.take(i + 1).drop_last() =~= self.txs@.take(i as int));
                assert(self.txs@.take(i + 1).last() == self.txs@[i as int]);
            }
            if t.involves_account(account) {
                matched.push(t.clone_tx());
            }
        }
        proof {
            assert(self.txs@.take(n as int) =~= self.txs@);
        }
        matched
    }
}

/// Page `page` (`page_size` records) of `records`, walking most-recent-first.
fn page_records(records: &Vec<RichTx>, page: u32, page_size: u32) -> (out: Vec<RichTx>)
    requires
        records@.len() <= u64::MAX,
    ensures
        out@ == page_of(records@, page as int, page_size as int),
{
    let mlen = records.len();
    proof {
        assert((page as int) * (page_size as int) <= (u32::MAX as int) * (u32::MAX as int))
            by (nonlinear_arith)
            requires
                page <= u32::MAX,
                page_size <= u32::MAX,
        ;
    }
    let start: u64 = (page as u64) * (page_size as u64);
    let mut out: Vec<RichTx> = Vec::new();
    let mut k: u64 = 0;
    while k < page_size as u64 && start + k < mlen as u64
        invariant
            mlen == records@.len(),
            start == (page as int) * (page_size as int),
            k <= page_size as u64,
            start + k <= mlen as u64 || k == 0,
            out@.len() == k,
            forall|j: int| 0 <= j < k ==> out@[j] == records@[mlen - 1 - (start + j)],
        decreases page_size as u64 - k,
    {
        let idx: usize = ((mlen as u64) - 1 - (start + k)) as usize;
        out.push(records[idx].clone_tx());
        k = k + 1;
    }
    proof {
        let s = records@;
        let p = page_of(s, page as int, page_size as int);
        let st = (page as int) * (page_size as int);
        assert(s.reverse().len() == s.len());
        assert(out@.len() == p.len());
        assert forall|j: int| 0 <= j < p.len() implies out@[j] == p[j] by {
            assert(p[j] == s.reverse()[st + j]);
            assert(s.reverse()[st + j] == s[s.len() - 1 - (st + j)]);
        }
        assert(out@ =~= p);
    }
    out
}

} // verus!

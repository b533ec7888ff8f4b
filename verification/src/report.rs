//! Balances before and after the transfer, and the table that shows how
//! they changed.

use vstd::prelude::*;
use vstd::string::*;
use crate::address::{checksummed_text, Address};
use crate::text::truncated;
use crate::wei::{ether_text, signed_decimal_text, BalanceDelta, Wei};

verus! {

/// The number of characters that the address column gives to an address.
pub const ADDRESS_DISPLAY_WIDTH: usize = 10;

/// The balance of one account, read before the transfer was submitted and
/// again after it was confirmed.
#[derive(Clone, Copy, Debug, PartialEq, Eq)]
pub struct BalanceSnapshot {
    pub address: Address,
    pub before: Wei,
    pub after: Wei,
}

/// The snapshots of the two parties of a transfer.
#[derive(Clone, Copy, Debug, PartialEq, Eq)]
pub struct TransferReport {
    pub owner: BalanceSnapshot,
    pub destination: BalanceSnapshot,
}

/// One line of the table, cell by cell.
#[derive(Clone, Debug, PartialEq, Eq)]
pub struct ReportRow {
    pub address: String,
    pub balance_before: String,
    pub balance_after: String,
    pub difference: String,
}

/// `ReportRow` as the contracts see it.
pub struct ReportRowView {
    pub address: Seq<char>,
    pub balance_before: Seq<char>,
    pub balance_after: Seq<char>,
    pub difference: Seq<char>,
}

impl View for ReportRow {
    type V = ReportRowView;

    open spec fn view(&self) -> ReportRowView {
        ReportRowView {
            address: self.address@,
            balance_before: self.balance_before@,
            balance_after: self.balance_after@,
            difference: self.difference@,
        }
    }
}

/// The balance that the account `party` holds once a transfer of `amount`
/// from `owner` to `destination` has settled at the cost of `fee`, where
/// it held `before` and nothing else touched it: the owner pays the amount
/// and the fee, the destination receives the amount, and an account that is
/// both does both.
pub open spec fn settled_balance(
    party: Seq<u8>,
    owner: Seq<u8>,
    destination: Seq<u8>,
    before: nat,
    amount: nat,
    fee: nat,
) -> int {
    before - (if party == owner {
        amount + fee
    } else {
        0
    }) + (if party == destination {
        amount as int
    } else {
        0
    })
}

impl BalanceSnapshot {
    /// What the balance changed by: `after - before`.
    pub open spec fn spec_delta(&self) -> int {
        self.after@ - self.before@
    }

    /// Whether the balance read after the transfer is the settled balance
    /// of this account.
    pub open spec fn settles(
        &self,
        owner: Address,
        destination: Address,
        amount: nat,
        fee: nat,
    ) -> bool {
        self.after@ == settled_balance(
            self.address@,
            owner@,
            destination@,
            self.before@,
            amount,
            fee,
        )
    }

    /// The line of the table that shows this snapshot, with the address
    /// cut to `width` characters.
    pub open spec fn spec_row(&self, width: nat) -> ReportRowView {
        ReportRowView {
            address: truncated(checksummed_text(self.address@), width),
            balance_before: ether_text(self.before@),
            balance_after: ether_text(self.after@),
            difference: signed_decimal_text(self.spec_delta()),
        }
    }

    /// The snapshot of `address` made of two reads of its balance.
    pub fn new(address: Address, before: Wei, after: Wei) -> (snapshot: BalanceSnapshot)
        ensures
            snapshot == (BalanceSnapshot { address, before, after }),
    {
        BalanceSnapshot { address, before, after }
    }

    /// What the balance changed by between the two reads, as a signed
    /// number of smallest units.
    pub fn delta(&self) -> (delta: BalanceDelta)
        ensures
            delta@ == self.spec_delta(),
            delta.negative <==> self.after@ < self.before@,
    {
        BalanceDelta::between(&self.before, &self.after)
    }

    /// The line of the table that shows this snapshot: the address cut to
    /// `width` characters, both balances in whole units of the currency,
    /// and the difference in the smallest unit.
    pub fn row(&self, width: usize) -> (row: ReportRow)
        ensures
            row@ == self.spec_row(width as nat),
    {
        ReportRow {
            address: self.address.to_display_string(width),
            balance_before: self.before.to_ether_string(),
            balance_after: self.after.to_ether_string(),
            difference: self.delta().to_decimal_string(),
        }
    }
}

impl TransferReport {
    /// The titles of the four columns.
    pub open spec fn spec_header() -> ReportRowView {
        ReportRowView {
            address: "Address"@,
            balance_before: "Balance Before (ETH)"@,
            balance_after: "Balance After (ETH)"@,
            difference: "Difference (wei)"@,
        }
    }

    /// The titles of the four columns.
    pub fn header() -> (titles: ReportRow)
        ensures
            titles@ == Self::spec_header(),
    {
        ReportRow {
            address: "Address".to_owned(),
            balance_before: "Balance Before (ETH)".to_owned(),
            balance_after: "Balance After (ETH)".to_owned(),
            difference: "Difference (wei)".to_owned(),
        }
    }

    /// The lines of the table: the owner's, then the destination's.
    pub fn rows(&self) -> (rows: Vec<ReportRow>)
        ensures
            rows@.len() == 2,
            rows@[0]@ == self.owner.spec_row(ADDRESS_DISPLAY_WIDTH as nat),
            rows@[1]@ == self.destination.spec_row(ADDRESS_DISPLAY_WIDTH as nat),
    {
        let mut rows: Vec<ReportRow> = Vec::new();
        rows.push(self.owner.row(ADDRESS_DISPLAY_WIDTH));
        rows.push(self.destination.row(ADDRESS_DISPLAY_WIDTH));
        rows
    }
}

/// Where the owner and the destination are two accounts and both
/// snapshots settle, the destination gains exactly the amount and the
/// owner loses the amount and the fee.
pub proof fn lemma_transfer_moves_amount(report: TransferReport, amount: nat, fee: nat)
    requires
        report.owner.address@ != report.destination.address@,
        report.owner.settles(report.owner.address, report.destination.address, amount, fee),
        report.destination.settles(report.owner.address, report.destination.address, amount, fee),
    ensures
        report.destination.spec_delta() == amount,
        report.owner.spec_delta() == -(amount + fee),
{
}

/// Where the owner sends to its own address, the amount leaves and
/// arrives on the same account: its balance changes by the fee alone, and
/// not at all where no fee is counted.
pub proof fn lemma_self_transfer_nets_to_fee(snapshot: BalanceSnapshot, amount: nat, fee: nat)
    requires
        snapshot.settles(snapshot.address, snapshot.address, amount, fee),
    ensures
        snapshot.spec_delta() == -(fee as int),
        fee == 0 ==> snapshot.spec_delta() == 0,
{
}

} // verus!

//! The ledger: every record that the external token program and the external
//! metadata program keep, and the operations this program asks of them.
//!
//! On chain these operations run inside the external programs; a request
//! either fully commits or fully aborts. Each operation here checks all of
//! its conditions before it writes anything, so a rejection leaves the ledger
//! exactly as it was, and its contract says so.

use vstd::prelude::*;
use std::collections::HashMap;
use crate::records::HoldingRecord;
use crate::records::MetadataRecord;
use crate::records::MintRecord;
use crate::records::TokenError;

verus! {

broadcast use vstd::std_specs::hash::group_hash_axioms;

/// All records kept by the two external programs, keyed by account address.
pub struct Ledger {
    /// One record per token type, keyed by the mint's address.
    pub mints: HashMap<u64, MintRecord>,
    /// One record per token account, keyed by the holding's address.
    pub holdings: HashMap<u64, HoldingRecord>,
    /// One display record per mint, keyed by the mint's address.
    pub metadata: HashMap<u64, MetadataRecord>,
}

/// A fresh mint record: no supply yet, with the given precision and authority.
pub open spec fn new_mint_record(decimals: u8, mint_authority: u64) -> MintRecord {
    MintRecord { supply: 0u64, decimals, mint_authority }
}

/// The given mint record with its supply replaced.
pub open spec fn mint_with_supply(m: MintRecord, supply: u64) -> MintRecord {
    MintRecord { supply, decimals: m.decimals, mint_authority: m.mint_authority }
}

/// A holding record with the given mint, owner and balance.
pub open spec fn made_holding(mint: u64, owner: u64, balance: u64) -> HoldingRecord {
    HoldingRecord { mint, owner, balance }
}

/// The given holding record with its balance replaced.
pub open spec fn holding_with_balance(h: HoldingRecord, balance: u64) -> HoldingRecord {
    HoldingRecord { mint: h.mint, owner: h.owner, balance }
}

/// A metadata record with the given display data.
pub open spec fn made_metadata(name: String, symbol: String, uri: String) -> MetadataRecord {
    MetadataRecord { name, symbol, uri }
}

/// The balance of the holding at `addr`, or zero if no holding exists there.
pub open spec fn balance_or_zero(l: Ledger, addr: u64) -> u64 {
    if l.holdings@.contains_key(addr) {
        l.holdings@[addr].balance
    } else {
        0u64
    }
}

/// Why `create_mint` rejects, or `None` if it succeeds.
pub open spec fn create_mint_err(l: Ledger, mint: u64) -> Option<TokenError> {
    if l.mints@.contains_key(mint) {
        Some(TokenError::MintAlreadyExists)
    } else {
        None
    }
}

/// Why `create_metadata` rejects, or `None` if it succeeds.
pub open spec fn create_metadata_err(l: Ledger, mint: u64, authority: u64) -> Option<TokenError> {
    if !l.mints@.contains_key(mint) {
        Some(TokenError::MintNotFound)
    } else if authority != l.mints@[mint].mint_authority {
        Some(TokenError::WrongMintAuthority)
    } else if l.metadata@.contains_key(mint) {
        Some(TokenError::MetadataAlreadyExists)
    } else {
        None
    }
}

/// Why `create_holding` rejects, or `None` if it succeeds.
pub open spec fn create_holding_err(l: Ledger, addr: u64, mint: u64) -> Option<TokenError> {
    if !l.mints@.contains_key(mint) {
        Some(TokenError::MintNotFound)
    } else if l.holdings@.contains_key(addr) {
        Some(TokenError::HoldingAlreadyExists)
    } else {
        None
    }
}

/// Why `mint_to` rejects, or `None` if it succeeds.
pub open spec fn mint_to_err(
    l: Ledger,
    mint: u64,
    dest: u64,
    authority: u64,
    quantity: u64,
) -> Option<TokenError> {
    if !l.mints@.contains_key(mint) {
        Some(TokenError::MintNotFound)
    } else if !l.holdings@.contains_key(dest) {
        Some(TokenError::HoldingNotFound)
    } else if l.holdings@[dest].mint != mint {
        Some(TokenError::HoldingMintMismatch)
    } else if authority != l.mints@[mint].mint_authority {
        Some(TokenError::WrongMintAuthority)
    } else if l.mints@[mint].supply + quantity > u64::MAX {
        Some(TokenError::SupplyOverflow)
    } else if l.holdings@[dest].balance + quantity > u64::MAX {
        Some(TokenError::BalanceOverflow)
    } else {
        None
    }
}

/// Why `transfer` rejects, or `None` if it succeeds.
pub open spec fn transfer_err(
    l: Ledger,
    source: u64,
    dest: u64,
    authority: u64,
    quantity: u64,
) -> Option<TokenError> {
    if !l.holdings@.contains_key(source) {
        Some(TokenError::HoldingNotFound)
    } else if !l.holdings@.contains_key(dest) {
        Some(TokenError::HoldingNotFound)
    } else if l.holdings@[dest].mint != l.holdings@[source].mint {
        Some(TokenError::HoldingMintMismatch)
    } else if authority != l.holdings@[source].owner {
        Some(TokenError::HoldingOwnerMismatch)
    } else if l.holdings@[source].balance < quantity {
        Some(TokenError::InsufficientBalance)
    } else if source != dest && l.holdings@[dest].balance + quantity > u64::MAX {
        Some(TokenError::BalanceOverflow)
    } else {
        None
    }
}

/// The holdings map after a successful transfer: a transfer to the very same
/// holding changes nothing, any other moves the quantity between the two.
pub open spec fn transfer_post_holdings(
    l: Ledger,
    source: u64,
    dest: u64,
    quantity: u64,
) -> Map<u64, HoldingRecord> {
    if source == dest {
        l.holdings@
    } else {
        l.holdings@.insert(
            source,
            holding_with_balance(
                l.holdings@[source],
                (l.holdings@[source].balance - quantity) as u64,
            ),
        ).insert(
            dest,
            holding_with_balance(l.holdings@[dest], (l.holdings@[dest].balance + quantity) as u64),
        )
    }
}

/// Why `burn` rejects, or `None` if it succeeds.
pub open spec fn burn_err(
    l: Ledger,
    mint: u64,
    source: u64,
    authority: u64,
    quantity: u64,
) -> Option<TokenError> {
    if !l.mints@.contains_key(mint) {
        Some(TokenError::MintNotFound)
    } else if !l.holdings@.contains_key(source) {
        Some(TokenError::HoldingNotFound)
    } else if l.holdings@[source].mint != mint {
        Some(TokenError::HoldingMintMismatch)
    } else if authority != l.holdings@[source].owner {
        Some(TokenError::HoldingOwnerMismatch)
    } else if l.holdings@[source].balance < quantity {
        Some(TokenError::InsufficientBalance)
    } else if l.mints@[mint].supply < quantity {
        Some(TokenError::SupplyUnderflow)
    } else {
        None
    }
}

impl Ledger {
    /// A ledger with no records at all.
    pub fn new() -> (l: Ledger)
        ensures
            l.mints@ == Map::<u64, MintRecord>::empty(),
            l.holdings@ == Map::<u64, HoldingRecord>::empty(),
            l.metadata@ == Map::<u64, MetadataRecord>::empty(),
    {
        Ledger { mints: HashMap::new(), holdings: HashMap::new(), metadata: HashMap::new() }
    }

    /// The token program's "create mint": a new token type with no supply,
    /// the given precision, and the given minting authority.
    pub fn create_mint(&mut self, mint: u64, decimals: u8, mint_authority: u64) -> (r: Result<
        (),
        TokenError,
    >)
        ensures
            match r {
                Ok(_) => create_mint_err(*old(self), mint) is None && final(self).mints@ == old(self).mints@.insert(mint, new_mint_record(decimals, mint_authority)) && final(self).holdings == old(self).holdings && final(self).metadata == old(self).metadata,
                Err(e) => create_mint_err(*old(self), mint) == Some(e) && *final(self) == *old(self),
            },
    {
        if self.mints.contains_key(&mint) {
            return Err(TokenError::MintAlreadyExists);
        }
        self.mints.insert(mint, MintRecord { supply: 0, decimals, mint_authority });
        Ok(())
    }

    /// The metadata program's "create metadata record": display data for an
    /// existing mint, created at most once, on the mint authority's signature.
    pub fn create_metadata(
        &mut self,
        mint: u64,
        authority: u64,
        name: String,
        symbol: String,
        uri: String,
    ) -> (r: Result<(), TokenError>)
        ensures
            match r {
                Ok(_) => create_metadata_err(*old(self), mint, authority) is None && final(self).metadata@ == old(self).metadata@.insert(mint, made_metadata(name, symbol, uri))
                    && final(self).mints == old(self).mints && final(self).holdings == old(self).holdings,
                Err(e) => create_metadata_err(*old(self), mint, authority) == Some(e) && *final(self) == *old(self),
            },
    {
        let mint_rec: MintRecord = match self.mints.get(&mint) {
            Some(m) => *m,
            None => { return Err(TokenError::MintNotFound) },
        };
        if authority != mint_rec.mint_authority {
            return Err(TokenError::WrongMintAuthority);
        }
        if self.metadata.contains_key(&mint) {
            return Err(TokenError::MetadataAlreadyExists);
        }
        self.metadata.insert(mint, MetadataRecord { name, symbol, uri });
        Ok(())
    }

    /// The associated-token program's "create": an empty holding of the given
    /// mint for the given owner, at an address that does not hold one yet.
    pub fn create_holding(&mut self, addr: u64, mint: u64, owner: u64) -> (r: Result<
        (),
        TokenError,
    >)
        ensures
            match r {
                Ok(_) => create_holding_err(*old(self), addr, mint) is None && final(self).holdings@ == old(self).holdings@.insert(addr, made_holding(mint, owner, 0))
                    && final(self).mints == old(self).mints && final(self).metadata == old(self).metadata,
                Err(e) => create_holding_err(*old(self), addr, mint) == Some(e) && *final(self)
                    == *old(self),
            },
    {
        if !self.mints.contains_key(&mint) {
            return Err(TokenError::MintNotFound);
        }
        if self.holdings.contains_key(&addr) {
            return Err(TokenError::HoldingAlreadyExists);
        }
        self.holdings.insert(addr, HoldingRecord { mint, owner, balance: 0 });
        Ok(())
    }

    /// The token program's "mint to": on the mint authority's signature, add
    /// `quantity` to the destination's balance and to the mint's supply.
    pub fn mint_to(&mut self, mint: u64, dest: u64, authority: u64, quantity: u64) -> (r: Result<
        (),
        TokenError,
    >)
        ensures
            match r {
                Ok(_) => mint_to_err(*old(self), mint, dest, authority, quantity) is None && final(self).mints@ == old(self).mints@.insert(
                    mint,
                    mint_with_supply(
                        old(self).mints@[mint],
                        (old(self).mints@[mint].supply + quantity) as u64,
                    ),
                ) && final(self).holdings@ == old(self).holdings@.insert(
                    dest,
                    holding_with_balance(
                        old(self).holdings@[dest],
                        (old(self).holdings@[dest].balance + quantity) as u64,
                    ),
                ) && final(self).metadata == old(self).metadata,
                Err(e) => mint_to_err(*old(self), mint, dest, authority, quantity) == Some(e)
                    && *final(self) == *old(self),
            },
    {
        let mint_rec: MintRecord = match self.mints.get(&mint) {
            Some(m) => *m,
            None => { return Err(TokenError::MintNotFound) },
        };
        let dest_rec: HoldingRecord = match self.holdings.get(&dest) {
            Some(h) => *h,
            None => { return Err(TokenError::HoldingNotFound) },
        };
        if dest_rec.mint != mint {
            return Err(TokenError::HoldingMintMismatch);
        }
        if authority != mint_rec.mint_authority {
            return Err(TokenError::WrongMintAuthority);
        }
        if quantity > u64::MAX - mint_rec.supply {
            return Err(TokenError::SupplyOverflow);
        }
        if quantity > u64::MAX - dest_rec.balance {
            return Err(TokenError::BalanceOverflow);
        }
        self.mints.insert(
            mint,
            MintRecord {
                supply: mint_rec.supply + quantity,
                decimals: mint_rec.decimals,
                mint_authority: mint_rec.mint_authority,
            },
        );
        self.holdings.insert(
            dest,
            HoldingRecord {
                mint: dest_rec.mint,
                owner: dest_rec.owner,
                balance: dest_rec.balance + quantity,
            },
        );
        Ok(())
    }

    /// The token program's "transfer": on the source owner's signature, move
    /// `quantity` from the source holding to the destination holding of the
    /// same mint. A transfer onto the very same holding leaves it unchanged.
    pub fn transfer(&mut self, source: u64, dest: u64, authority: u64, quantity: u64) -> (r: Result<
        (),
        TokenError,
    >)
        ensures
            match r {
                Ok(_) => transfer_err(*old(self), source, dest, authority, quantity) is None
                    && final(self).holdings@ == transfer_post_holdings(
                    *old(self),
                    source,
                    dest,
                    quantity,
                ) && final(self).mints == old(self).mints && final(self).metadata == old(self).metadata,
                Err(e) => transfer_err(*old(self), source, dest, authority, quantity) == Some(e)
                    && *final(self) == *old(self),
            },
    {
        let src_rec: HoldingRecord = match self.holdings.get(&source) {
            Some(h) => *h,
            None => { return Err(TokenError::HoldingNotFound) },
        };
        let dst_rec: HoldingRecord = match self.holdings.get(&dest) {
            Some(h) => *h,
            None => { return Err(TokenError::HoldingNotFound) },
        };
        if dst_rec.mint != src_rec.mint {
            return Err(TokenError::HoldingMintMismatch);
        }
        if authority != src_rec.owner {
            return Err(TokenError::HoldingOwnerMismatch);
        }
        if src_rec.balance < quantity {
            return Err(TokenError::InsufficientBalance);
        }
        if source == dest {
            return Ok(());
        }
        if quantity > u64::MAX - dst_rec.balance {
            return Err(TokenError::BalanceOverflow);
        }
        self.holdings.insert(
            source,
            HoldingRecord {
                mint: src_rec.mint,
                owner: src_rec.owner,
                balance: src_rec.balance - quantity,
            },
        );
        self.holdings.insert(
            dest,
            HoldingRecord {
                mint: dst_rec.mint,
                owner: dst_rec.owner,
                balance: dst_rec.balance + quantity,
            },
        );
        Ok(())
    }

    /// The token program's "burn": on the source owner's signature, remove
    /// `quantity` from the source's balance and from the mint's supply.
    pub fn burn(&mut self, mint: u64, source: u64, authority: u64, quantity: u64) -> (r: Result<
        (),
        TokenError,
    >)
        ensures
            match r {
                Ok(_) => burn_err(*old(self), mint, source, authority, quantity) is None && final(self).mints@ == old(self).mints@.insert(
                    mint,
                    mint_with_supply(
                        old(self).mints@[mint],
                        (old(self).mints@[mint].supply - quantity) as u64,
                    ),
                ) && final(self).holdings@ == old(self).holdings@.insert(
                    source,
                    holding_with_balance(
                        old(self).holdings@[source],
                        (old(self).holdings@[source].balance - quantity) as u64,
                    ),
                ) && final(self).metadata == old(self).metadata,
                Err(e) => burn_err(*old(self), mint, source, authority, quantity) == Some(e)
                    && *final(self) == *old(self),
            },
    {
        let mint_rec: MintRecord = match self.mints.get(&mint) {
            Some(m) => *m,
            None => { return Err(TokenError::MintNotFound) },
        };
        let src_rec: HoldingRecord = match self.holdings.get(&source) {
            Some(h) => *h,
            None => { return Err(TokenError::HoldingNotFound) },
        };
        if src_rec.mint != mint {
            return Err(TokenError::HoldingMintMismatch);
        }
        if authority != src_rec.owner {
            return Err(TokenError::HoldingOwnerMismatch);
        }
        if src_rec.balance < quantity {
            return Err(TokenError::InsufficientBalance);
        }
        if mint_rec.supply < quantity {
            return Err(TokenError::SupplyUnderflow);
        }
        self.mints.insert(
            mint,
            MintRecord {
                supply: mint_rec.supply - quantity,
                decimals: mint_rec.decimals,
                mint_authority: mint_rec.mint_authority,
            },
        );
        self.holdings.insert(
            source,
            HoldingRecord {
                mint: src_rec.mint,
                owner: src_rec.owner,
                balance: src_rec.balance - quantity,
            },
        );
        Ok(())
    }
}

} // verus!

//! The trusted boundary around the SQLite backend.
//!
//! The store keeps three relations in a pooled SQLite database: block
//! payloads by identifier, index rows by identifier, and tags by name.
//! This module declares the pool, names its contents as three
//! mathematical maps, and wraps the handful of SQL operations the store
//! performs.  Each wrapper's contract states, over those maps, what the
//! operation does; everything above this module is verified against
//! those contracts.
//!
//! The three content names stand for the rows of the `Blocks`,
//! `BlockInfo` and `Tags` tables of the database reached through the
//! pool's connections, keyed and read as unsigned 64-bit values.  The
//! contracts describe a database that only the present handle touches:
//! the store takes `&mut self` for every write, an ephemeral store owns
//! a private single-connection database, and a durable store carries
//! the trusted premise stated at [`StorePool::open`].  Failures of the
//! backend itself (pool exhaustion, I/O faults) are surfaced as `Err`
//! with a message, and every such contract promises only that the
//! database is then unchanged, which SQLite's transactional rollback
//! guarantees.

use vstd::prelude::*;
use rusqlite::ErrorCode;
use crate::chain::InfoModel;
use crate::chain::MAX_CHAIN_LENGTH;

verus! {

/// A pool of connections to the SQLite database that holds the three
/// tables `Blocks`, `BlockInfo` and `Tags`.
#[verifier::external_body]
pub struct StorePool {
    pool: r2d2::Pool<r2d2_sqlite::SqliteConnectionManager>,
}

/// The payloads stored in the `Blocks` table, keyed by block
/// identifier.
pub uninterp spec fn blocks_of(p: StorePool) -> Map<u64, Seq<u8>>;

/// The index rows stored in the `BlockInfo` table, keyed by block
/// identifier.
pub uninterp spec fn infos_of(p: StorePool) -> Map<u64, InfoModel>;

/// The tags stored in the `Tags` table, keyed by tag name.
pub uninterp spec fn tags_of(p: StorePool) -> Map<Seq<char>, u64>;

impl StorePool {
    /// Opens a fresh, private in-memory database, idempotently creates
    /// the three tables in one setup transaction, and wraps it in a
    /// pool of exactly one connection, so that every operation drawn
    /// from the pool sees the same ephemeral state and no other handle
    /// in the process can reach it.
    ///
    /// Relies on `r2d2::Builder::max_size`/`build`, `r2d2::Pool::get`
    /// and `rusqlite::Connection::execute_batch`.  A `:memory:`
    /// database without a shared cache is private to its single
    /// connection and starts empty, which the contract states; a
    /// construction fault is surfaced as `Err`.
    #[verifier::external_body]
    pub fn open_memory() -> (r: Result<StorePool, String>)
        ensures
            match r {
                Ok(p) => {
                    &&& infos_of(p) == Map::<u64, InfoModel>::empty()
                    &&& blocks_of(p) == Map::<u64, Seq<u8>>::empty()
                    &&& tags_of(p) == Map::<Seq<char>, u64>::empty()
                },
                Err(_) => true,
            },
    {
        let manager = r2d2_sqlite::SqliteConnectionManager::file(":memory:");
        let pool = r2d2::Pool::builder().max_size(1).build(manager).map_err(|e| e.to_string())?;
        let conn = pool.get().map_err(|e| e.to_string())?;
        conn.execute_batch(
            "begin;
             create table if not exists BlockInfo (hash integer primary key, depth integer not null, parent integer not null, fast_distance integer, fast_hash integer, foreign key(hash) references Blocks(hash));
             create table if not exists Blocks (hash integer primary key, block blob not null);
             create table if not exists Tags (name text primary key, hash integer not null, foreign key(hash) references BlockInfo(hash));
             commit;",
        ).map_err(|e| e.to_string())?;
        Ok(StorePool { pool })
    }

    /// Opens the database named by `path` and idempotently creates the
    /// three tables in one setup transaction, then switches the journal
    /// to write-ahead logging so readers are not blocked by writers.
    /// A construction fault is surfaced as `Err`.
    ///
    /// Relies on `r2d2::Pool::new`, `r2d2::Pool::get` and
    /// `rusqlite::Connection::execute_batch`.
    ///
    /// TRUSTED PREMISE of the `Ok` contract, which SQLite cannot show:
    /// the file named by `path` is fresh (then it starts empty, which
    /// is trivially well formed) or was written only through this
    /// library, whose writes preserve well-formedness; and no other
    /// live handle — in this process or another — reaches the same
    /// database while this one is in use.  A foreign or corrupt file,
    /// or a second handle on the same path, voids every contract built
    /// on the content maps.
    #[verifier::external_body]
    pub fn open(path: &str) -> (r: Result<StorePool, String>)
        ensures
            match r {
                Ok(p) => crate::chain::state_wf(infos_of(p), blocks_of(p), tags_of(p)),
                Err(_) => true,
            },
    {
        let manager = r2d2_sqlite::SqliteConnectionManager::file(path);
        let pool = r2d2::Pool::new(manager).map_err(|e| e.to_string())?;
        let conn = pool.get().map_err(|e| e.to_string())?;
        conn.execute_batch(
            "begin;
             create table if not exists BlockInfo (hash integer primary key, depth integer not null, parent integer not null, fast_distance integer, fast_hash integer, foreign key(hash) references Blocks(hash));
             create table if not exists Blocks (hash integer primary key, block blob not null);
             create table if not exists Tags (name text primary key, hash integer not null, foreign key(hash) references BlockInfo(hash));
             commit;",
        ).map_err(|e| e.to_string())?;
        conn.execute_batch("pragma journal_mode = WAL").map_err(|e| e.to_string())?;
        Ok(StorePool { pool })
    }

    /// Writes one block: its payload row and its index row, in a single
    /// transaction that commits or rolls back as a unit.  `Ok(true)`
    /// means both rows were inserted; `Ok(false)` means the payload
    /// insert hit the primary-key constraint, so a row with this
    /// identifier was already committed; `Err` is a backend fault.  In
    /// the last two cases the transaction is rolled back and the
    /// database is unchanged.
    ///
    /// Relies on `rusqlite::Connection::transaction`,
    /// `rusqlite::Connection::execute` on the two inserts, and
    /// `rusqlite::Transaction::commit`.
    #[verifier::external_body]
    pub fn put_block_row(
        &mut self,
        id: u64,
        payload: &Vec<u8>,
        chain_length: u64,
        parent: u64,
        fast: Option<(u64, u64)>,
    ) -> (r: Result<bool, String>)
        requires
            chain_length <= MAX_CHAIN_LENGTH,
            match fast {
                Some((d, _)) => d <= MAX_CHAIN_LENGTH,
                None => true,
            },
        ensures
            match r {
                Ok(true) => {
                    &&& !blocks_of(*old(self)).dom().contains(id)
                    &&& blocks_of(*final(self)) == blocks_of(*old(self)).insert(id, payload@)
                    &&& infos_of(*final(self)) == infos_of(*old(self)).insert(
                        id,
                        InfoModel { chain_length, parent, fast },
                    )
                    &&& tags_of(*final(self)) == tags_of(*old(self))
                },
                Ok(false) => {
                    &&& blocks_of(*old(self)).dom().contains(id)
                    &&& *final(self) == *old(self)
                },
                Err(_) => *final(self) == *old(self),
            },
    {
        let mut conn = self.pool.get().map_err(|e| format!("{e}"))?;
        let tx = conn.transaction().map_err(|e| format!("{e}"))?;
        if let Err(e) = tx.execute("insert into Blocks (hash, block) values (?, ?)", (id as i64, &payload[..])) {
            return if e.sqlite_error_code() == Some(ErrorCode::ConstraintViolation) { Ok(false) } else { Err(format!("{e}")) };
        }
        tx.execute("insert into BlockInfo (hash, depth, parent, fast_distance, fast_hash) values (?, ?, ?, ?, ?)", (id as i64, chain_length as i64, parent as i64, fast.map(|f| f.0 as i64), fast.map(|f| f.1 as i64))).map_err(|e| format!("{e}"))?;
        tx.commit().map_err(|e| format!("{e}"))?;
        Ok(true)
    }

    /// Reads the index row of a block: its chain length, parent, and
    /// optional fast link.  `Ok(None)` means no row with this
    /// identifier exists; `Err` is a backend fault.
    ///
    /// Relies on `rusqlite::Connection::query_row` distinguishing a
    /// missing row (`QueryReturnedNoRows`) from other failures.
    #[verifier::external_body]
    pub fn get_info_row(&self, id: u64) -> (r: Result<
        Option<(u64, u64, Option<(u64, u64)>)>,
        String,
    >)
        ensures
            match r {
                Ok(Some((chain_length, parent, fast))) => {
                    &&& infos_of(*self).dom().contains(id)
                    &&& infos_of(*self)[id] == InfoModel { chain_length, parent, fast }
                },
                Ok(None) => !infos_of(*self).dom().contains(id),
                Err(_) => true,
            },
    {
        let conn = self.pool.get().map_err(|e| format!("{e}"))?;
        let got = conn.query_row("select depth, parent, fast_distance, fast_hash from BlockInfo where hash = ?", (id as i64,), |row| {
            let fd: Option<i64> = row.get(2)?;
            let fh: Option<i64> = row.get(3)?;
            Ok((row.get::<_, i64>(0)? as u64, row.get::<_, i64>(1)? as u64, fd.zip(fh).map(|(x, h)| (x as u64, h as u64))))
        });
        match got {
            Ok(v) => Ok(Some(v)),
            Err(rusqlite::Error::QueryReturnedNoRows) => Ok(None),
            Err(e) => Err(format!("{e}")),
        }
    }

    /// Reads the stored payload of a block.  `Ok(None)` means no
    /// payload row with this identifier exists; `Err` is a backend
    /// fault.
    ///
    /// Relies on `rusqlite::Connection::query_row` distinguishing a
    /// missing row from other failures.
    #[verifier::external_body]
    pub fn get_block_blob(&self, id: u64) -> (r: Result<Option<Vec<u8>>, String>)
        ensures
            match r {
                Ok(Some(payload)) => {
                    &&& blocks_of(*self).dom().contains(id)
                    &&& payload@ == blocks_of(*self)[id]
                },
                Ok(None) => !blocks_of(*self).dom().contains(id),
                Err(_) => true,
            },
    {
        let conn = self.pool.get().map_err(|e| format!("{e}"))?;
        match conn.query_row(
            "select block from Blocks where hash = ?",
            (id as i64,),
            |row| row.get::<_, Vec<u8>>(0),
        ) {
            Ok(blob) => Ok(Some(blob)),
            Err(rusqlite::Error::QueryReturnedNoRows) => Ok(None),
            Err(e) => Err(format!("{e}")),
        }
    }

    /// Upserts one tag: last write wins.  `Ok(true)` means the tag now
    /// names the given block; `Ok(false)` means a constraint rejected
    /// the write, which only the foreign key from tags to index rows
    /// can cause, so no index row with this identifier exists; `Err` is
    /// a backend fault.  In the last two cases the database is
    /// unchanged.
    ///
    /// Relies on `rusqlite::Connection::execute` and on SQLite's
    /// `insert or replace` resolving the primary-key conflict on the
    /// name column.
    #[verifier::external_body]
    pub fn put_tag_row(&mut self, name: &str, id: u64) -> (r: Result<bool, String>)
        ensures
            match r {
                Ok(true) => {
                    &&& tags_of(*final(self)) == tags_of(*old(self)).insert(name@, id)
                    &&& blocks_of(*final(self)) == blocks_of(*old(self))
                    &&& infos_of(*final(self)) == infos_of(*old(self))
                },
                Ok(false) => {
                    &&& !infos_of(*old(self)).dom().contains(id)
                    &&& *final(self) == *old(self)
                },
                Err(_) => *final(self) == *old(self),
            },
    {
        let conn = self.pool.get().map_err(|e| format!("{e}"))?;
        match conn.execute("insert or replace into Tags (name, hash) values (?, ?)", (name, id as i64)) {
            Ok(_) => Ok(true),
            Err(e) if e.sqlite_error_code() == Some(ErrorCode::ConstraintViolation) => Ok(false),
            Err(e) => Err(format!("{e}")),
        }
    }

    /// Reads the block identifier a tag names, if the tag exists.
    /// `Err` is a backend fault.
    ///
    /// Relies on `rusqlite::Connection::query_row` distinguishing a
    /// missing row from other failures.
    #[verifier::external_body]
    pub fn get_tag_row(&self, name: &str) -> (r: Result<Option<u64>, String>)
        ensures
            match r {
                Ok(Some(id)) => {
                    &&& tags_of(*self).dom().contains(name@)
                    &&& tags_of(*self)[name@] == id
                },
                Ok(None) => !tags_of(*self).dom().contains(name@),
                Err(_) => true,
            },
    {
        let conn = self.pool.get().map_err(|e| format!("{e}"))?;
        match conn.query_row("select hash from Tags where name = ?", (name,), |row| {
            row.get::<_, i64>(0)
        }) {
            Ok(h) => Ok(Some(h as u64)),
            Err(rusqlite::Error::QueryReturnedNoRows) => Ok(None),
            Err(e) => Err(format!("{e}")),
        }
    }
}

} // verus!

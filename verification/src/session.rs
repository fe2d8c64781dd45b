//! The backup session: one short-lived object holding the connection
//! parameters and the credentials it acquires, driving the four-step
//! workflow (connectivity probe, authentication, file resolution,
//! download). The session itself performs no I/O: the caller sends
//! each request and hands the received response in, and every
//! decision taken on it is verified here.

use vstd::prelude::*;
use vstd::string::StringExecFns;

use crate::errors::BackupError;
use crate::http::HttpResponse;
use crate::http::status_ok;
use crate::json::json_nested_string;
use crate::json::json_pair_list;
use crate::json::json_object_2;
use crate::json::pairs_view;
use crate::json::get_nested_string;
use crate::json::get_pair_list;
use crate::json::encode_object_2;
use crate::timestamp::Timestamp;
use crate::timestamp::spec_backup_filename;
use crate::timestamp::backup_filename;
use crate::timestamp::local_now;

verus! {

/// The token carried by a successful login response, at `data.token`.
pub open spec fn login_token_of(body: Seq<u8>) -> Option<Seq<char>> {
    json_nested_string(body, "data"@, "token"@)
}

/// The `(groupId, fileId)` pairs of a file-listing response, in
/// server order, at the `data` array.
pub open spec fn file_list_of(body: Seq<u8>) -> Option<Seq<(Seq<char>, Seq<char>)>> {
    json_pair_list(body, "data"@, "groupId"@, "fileId"@)
}

/// The login request body sent for `password`: a JSON object with
/// the fixed login-method member and the password member.
pub open spec fn login_body_of(password: Seq<char>) -> Seq<char> {
    json_object_2("loginMethod"@, "password"@, "password"@, password)
}

/// The file id of the first entry whose group id equals `key`, in
/// list order; `None` when no entry matches.
pub open spec fn first_match(entries: Seq<(Seq<char>, Seq<char>)>, key: Seq<char>) -> Option<
    Seq<char>,
>
    decreases entries.len(),
{
    if entries.len() == 0 {
        None
    } else if entries[0].0 == key {
        Some(entries[0].1)
    } else {
        first_match(entries.drop_first(), key)
    }
}

/// The matching rule selects the earliest match and nothing else:
/// a match exists exactly when some entry's group id equals `key`,
/// and the selected file id belongs to an entry before which no
/// entry matches.
pub proof fn lemma_first_match_earliest(entries: Seq<(Seq<char>, Seq<char>)>, key: Seq<char>)
    ensures
        (first_match(entries, key) is Some) <==> (exists|i: int|
            0 <= i < entries.len() && entries[i].0 == key),
        first_match(entries, key) matches Some(f) ==> (exists|i: int|
            0 <= i < entries.len() && entries[i].0 == key && entries[i].1 == f && (forall|j: int|
                0 <= j < i ==> entries[j].0 != key)),
    decreases entries.len(),
{
    if entries.len() == 0 {
    } else if entries[0].0 == key {
        assert(entries[0].0 == key);
    } else {
        let tail = entries.drop_first();
        lemma_first_match_earliest(tail, key);
        if first_match(entries, key) is Some {
            let i0 = choose|i: int|
                0 <= i < tail.len() && tail[i].0 == key && tail[i].1 == first_match(
                    tail,
                    key,
                )->Some_0 && (forall|j: int| 0 <= j < i ==> tail[j].0 != key);
            assert(entries[i0 + 1].0 == key);
            assert(forall|j: int| 0 <= j < i0 + 1 ==> entries[j].0 != key) by {
                assert(forall|j: int| 1 <= j < i0 + 1 ==> entries[j] == tail[j - 1]);
            }
        }
        if exists|i: int| 0 <= i < entries.len() && entries[i].0 == key {
            let i0 = choose|i: int| 0 <= i < entries.len() && entries[i].0 == key;
            assert(i0 != 0);
            assert(tail[i0 - 1].0 == key);
        }
    }
}

/// Finds the file id of the first entry of `entries` whose group id
/// equals `key`.
pub fn find_first_match(entries: &Vec<(String, String)>, key: &String) -> (r: Option<String>)
    ensures
        match r {
            Some(f) => first_match(pairs_view(entries@), key@) == Some(f@),
            None => first_match(pairs_view(entries@), key@) is None,
        },
{
    let ghost ents = pairs_view(entries@);
    proof {
        assert(ents.skip(0) =~= ents);
    }
    let mut i: usize = 0;
    while i < entries.len()
        invariant
            0 <= i <= entries.len(),
            ents == pairs_view(entries@),
            ents.len() == entries.len(),
            first_match(ents, key@) == first_match(ents.skip(i as int), key@),
        decreases entries.len() - i,
    {
        proof {
            assert(ents[i as int] == (entries@[i as int].0@, entries@[i as int].1@));
            assert(ents.skip(i as int)[0] == ents[i as int]);
        }
        if entries[i].0 == *key {
            return Some(entries[i].1.clone());
        }
        proof {
            assert(ents.skip(i as int).drop_first() =~= ents.skip(i as int + 1));
        }
        i += 1;
    }
    proof {
        assert(ents.skip(entries.len() as int) =~= Seq::<(Seq<char>, Seq<char>)>::empty());
    }
    None
}

/// One run's backup session. `token` and `file_id` start empty and
/// are each written at most once, by a successful `authenticate`
/// and `resolve_file_id` respectively; no field is ever reset.
pub struct BackupSession {
    /// Base address of the remote server; immutable after construction.
    pub server_url: String,
    /// The caller-supplied identifier of the budget file to back up;
    /// immutable after construction.
    pub budget_sync_id: String,
    /// The login secret; immutable after construction, used only to
    /// build the login request body.
    pub password: String,
    /// The session token; empty until authentication succeeds.
    pub token: String,
    /// The server's identifier of the file to download; empty until
    /// file resolution succeeds.
    pub file_id: String,
}

impl BackupSession {
    /// A fresh session for one run, with no token and no file id yet.
    pub fn new(server_url: String, budget_sync_id: String, password: String) -> (s: Self)
        ensures
            s.server_url == server_url,
            s.budget_sync_id == budget_sync_id,
            s.password == password,
            s.token@ == Seq::<char>::empty(),
            s.file_id@ == Seq::<char>::empty(),
    {
        BackupSession {
            server_url,
            budget_sync_id,
            password,
            token: String::new(),
            file_id: String::new(),
        }
    }

    /// The login endpoint under the server's base address.
    pub fn login_url(&self) -> (r: String)
        ensures
            r@ == self.server_url@ + "/account/login"@,
    {
        let mut url = self.server_url.clone();
        url.append("/account/login");
        url
    }

    /// The file-listing endpoint under the server's base address.
    pub fn list_files_url(&self) -> (r: String)
        ensures
            r@ == self.server_url@ + "/sync/list-user-files"@,
    {
        let mut url = self.server_url.clone();
        url.append("/sync/list-user-files");
        url
    }

    /// The download endpoint under the server's base address.
    pub fn download_url(&self) -> (r: String)
        ensures
            r@ == self.server_url@ + "/sync/download-user-file"@,
    {
        let mut url = self.server_url.clone();
        url.append("/sync/download-user-file");
        url
    }

    /// The JSON body of the login request: the fixed login-method
    /// member and this session's password.
    pub fn login_request_body(&self) -> (r: String)
        ensures
            r@ == login_body_of(self.password@),
    {
        proof {
            reveal_strlit("loginMethod");
            reveal_strlit("password");
            assert("loginMethod"@.len() == 11);
            assert("password"@.len() == 8);
        }
        encode_object_2("loginMethod", "password", "password", self.password.as_str())
    }

    /// Judges the connectivity probe: the server is reachable exactly
    /// when some response came back, whatever its status code; no
    /// response at all is a fatal `Connectivity` failure.
    pub fn check_connectivity(&self, probe: Option<u16>) -> (r: Result<(), BackupError>)
        ensures
            match probe {
                Some(_) => r == Ok::<(), BackupError>(()),
                None => r == Err::<(), BackupError>(BackupError::Connectivity),
            },
    {
        match probe {
            Some(_) => Ok(()),
            None => Err(BackupError::Connectivity),
        }
    }

    /// Judges the login response and, on success, acquires the
    /// session token from its `data.token` field. Everything else —
    /// no response, an error status, a body that is not JSON or
    /// carries no token — is a fatal `Authentication` failure that
    /// leaves the session untouched.
    pub fn authenticate(&mut self, response: Option<HttpResponse>) -> (r: Result<
        (),
        BackupError,
    >)
        requires
            old(self).token@ == Seq::<char>::empty(),
        ensures
            final(self).server_url == old(self).server_url,
            final(self).budget_sync_id == old(self).budget_sync_id,
            final(self).password == old(self).password,
            final(self).file_id == old(self).file_id,
            match response {
                None => final(self).token@ == Seq::<char>::empty() && r == Err::<(), BackupError>(
                    BackupError::Authentication,
                ),
                Some(resp) => {
                    if !status_ok(resp.status) {
                        final(self).token@ == Seq::<char>::empty() && r == Err::<(), BackupError>(
                            BackupError::Authentication,
                        )
                    } else {
                        match login_token_of(resp.body@) {
                            Some(t) => final(self).token@ == t && r == Ok::<(), BackupError>(()),
                            None => final(self).token@ == Seq::<char>::empty() && r == Err::<
                                (),
                                BackupError,
                            >(BackupError::Authentication),
                        }
                    }
                },
            },
    {
        let resp = match response {
            Some(resp) => resp,
            None => { return Err(BackupError::Authentication) },
        };
        if !resp.is_success() {
            return Err(BackupError::Authentication);
        }
        match get_nested_string(resp.body.as_slice(), "data", "token") {
            Some(token) => {
                self.token = token;
                Ok(())
            },
            None => Err(BackupError::Authentication),
        }
    }

    /// Judges the file-listing response: scans the listed entries in
    /// server order and resolves the file id of the first one whose
    /// group id equals this session's sync id. No response, an error
    /// status, a malformed listing, or a listing in which nothing
    /// matches is a fatal `FileResolution` failure that leaves the
    /// session untouched.
    pub fn resolve_file_id(&mut self, response: Option<HttpResponse>) -> (r: Result<
        String,
        BackupError,
    >)
        requires
            old(self).token@.len() > 0,
            old(self).file_id@ == Seq::<char>::empty(),
        ensures
            final(self).server_url == old(self).server_url,
            final(self).budget_sync_id == old(self).budget_sync_id,
            final(self).password == old(self).password,
            final(self).token == old(self).token,
            match response {
                None => final(self).file_id@ == Seq::<char>::empty() && r == Err::<String, BackupError>(
                    BackupError::FileResolution,
                ),
                Some(resp) => {
                    if !status_ok(resp.status) {
                        final(self).file_id@ == Seq::<char>::empty() && r == Err::<String, BackupError>(
                            BackupError::FileResolution,
                        )
                    } else {
                        match file_list_of(resp.body@) {
                            None => final(self).file_id@ == Seq::<char>::empty() && r == Err::<
                                String,
                                BackupError,
                            >(BackupError::FileResolution),
                            Some(entries) => {
                                match first_match(entries, old(self).budget_sync_id@) {
                                    None => final(self).file_id@ == Seq::<char>::empty() && r == Err::<
                                        String,
                                        BackupError,
                                    >(BackupError::FileResolution),
                                    Some(f) => final(self).file_id@ == f && (r matches Ok(id)
                                        && id@ == f),
                                }
                            },
                        }
                    }
                },
            },
    {
        let resp = match response {
            Some(resp) => resp,
            None => { return Err(BackupError::FileResolution) },
        };
        if !resp.is_success() {
            return Err(BackupError::FileResolution);
        }
        let entries = match get_pair_list(resp.body.as_slice(), "data", "groupId", "fileId") {
            Some(entries) => entries,
            None => { return Err(BackupError::FileResolution) },
        };
        match find_first_match(&entries, &self.budget_sync_id) {
            Some(id) => {
                self.file_id = id.clone();
                Ok(id)
            },
            None => Err(BackupError::FileResolution),
        }
    }

    /// Judges the download response as of the naming time `now`: on
    /// success, yields the timestamped file name to write and the
    /// archive bytes, exactly the bytes the server sent. No response
    /// or an error status is a fatal `Download` failure.
    pub fn download_file_at(&self, response: Option<HttpResponse>, now: &Timestamp) -> (r: Result<
        (String, Vec<u8>),
        BackupError,
    >)
        requires
            self.token@.len() > 0,
            self.file_id@.len() > 0,
        ensures
            match response {
                None => r == Err::<(String, Vec<u8>), BackupError>(BackupError::Download),
                Some(resp) => {
                    if !status_ok(resp.status) {
                        r == Err::<(String, Vec<u8>), BackupError>(BackupError::Download)
                    } else {
                        r matches Ok(p) && p.0@ == spec_backup_filename(*now) && p.1@
                            == resp.body@
                    }
                },
            },
    {
        let resp = match response {
            Some(resp) => resp,
            None => { return Err(BackupError::Download) },
        };
        if !resp.is_success() {
            return Err(BackupError::Download);
        }
        Ok((backup_filename(now), resp.body))
    }

    /// `download_file_at`, naming the file from the local wall clock
    /// at the moment of naming: the name renders some well-formed
    /// timestamp, and the bytes are the server's, byte for byte.
    pub fn download_file(&self, response: Option<HttpResponse>) -> (r: Result<
        (String, Vec<u8>),
        BackupError,
    >)
        requires
            self.token@.len() > 0,
            self.file_id@.len() > 0,
        ensures
            match response {
                None => r == Err::<(String, Vec<u8>), BackupError>(BackupError::Download),
                Some(resp) => {
                    if !status_ok(resp.status) {
                        r == Err::<(String, Vec<u8>), BackupError>(BackupError::Download)
                    } else {
                        r matches Ok(p) && p.1@ == resp.body@ && (exists|ts: Timestamp|
                            ts.wf() && #[trigger] spec_backup_filename(ts) == p.0@)
                    }
                },
            },
    {
        let now = local_now();
        let r = self.download_file_at(response, &now);
        match &r {
            Ok(p) => {
                proof {
                    assert(exists|ts: Timestamp|
                        ts.wf() && #[trigger] spec_backup_filename(ts) == p.0@) by {
                        assert(now.wf() && spec_backup_filename(now) == p.0@);
                    }
                }
            },
            Err(_) => {},
        }
        r
    }
}

} // verus!

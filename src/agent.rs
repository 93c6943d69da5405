//! The agent: it decides, for each request line, what is to be done, and
//! keeps the set of transfers that have been started and not yet drained.
use vstd::prelude::*;
use crate::protocol::{
    complete_err_wire, invalid_request_message, request_of_line, ProtocolError, Request,
    RequestView, Response, TransferResponse, TRANSFER_FAILED,
};

verus! {

/// The local directory that holds downloaded objects, under the root.
pub open spec fn objects_dir() -> Seq<char> {
    ".git/lfs/objects/"@
}

/// The local path of an object, relative to the root: two levels of
/// directories named by the first two and the next two characters of its id.
pub open spec fn object_path(oid: Seq<char>) -> Seq<char> {
    objects_dir() + oid.subrange(0, 2) + "/"@ + oid.subrange(2, 4) + "/"@ + oid
}

/// `rel` placed under the directory `root`; an empty root leaves it as it is.
pub open spec fn joined(root: Seq<char>, rel: Seq<char>) -> Seq<char> {
    if root.len() == 0 {
        rel
    } else if root.last() == '/' {
        root + rel
    } else {
        root + "/"@ + rel
    }
}

/// The message of the failure that a download of a too short id gives.
pub open spec fn short_oid_message() -> Seq<char> {
    "object id too short"@
}

/// The local path of an object, relative to the root.
pub fn lfs_object_path(oid: &str) -> (r: String)
    requires
        oid@.len() >= 4,
    ensures
        r@ == object_path(oid@),
{
    let mut s = String::from_str(".git/lfs/objects/");
    s.append(oid.substring_char(0, 2));
    s.append("/");
    s.append(oid.substring_char(2, 4));
    s.append("/");
    s.append(oid);
    s
}

/// Places `rel` under the directory `root`.
pub fn join_path(root: &str, rel: &str) -> (r: String)
    ensures
        r@ == joined(root@, rel@),
{
    let n = root.unicode_len();
    if n == 0 {
        String::from_str(rel)
    } else if root.get_char(n - 1) == '/' {
        let mut s = String::from_str(root);
        s.append(rel);
        s
    } else {
        let mut s = String::from_str(root);
        s.append("/");
        s.append(rel);
        s
    }
}

/// What a request asks the caller to do.
pub enum Action {
    /// Write this line to the parent tool now.
    Reply(String),
    /// Start sending the local file at `path` to the store under `oid`.
    Upload { oid: String, path: String },
    /// Start fetching `oid` from the store into the local file at `path`.
    Download { oid: String, path: String },
    /// Wait until every transfer started so far has sent its last report.
    Drain,
}

/// The request dispatcher.
pub struct Agent {
    /// The directory under which downloaded objects are placed.
    pub root: String,
    /// The ids of the transfers started and not yet drained, in order.
    pub live: Vec<String>,
}

impl Agent {
    /// The ids of the live transfers.
    pub open spec fn live_oids(&self) -> Seq<Seq<char>> {
        self.live@.map_values(|s: String| s@)
    }

    /// An agent with no live transfers that places downloads under `root`.
    pub fn new(root: String) -> (r: Self)
        ensures
            r.root == root,
            r.live_oids() == Seq::<Seq<char>>::empty(),
    {
        Agent { root, live: Vec::new() }
    }

    /// Decodes one request line and says what is to be done for it. A line
    /// without a request is an error and changes nothing; `init` is answered
    /// with one empty object; an upload or a download becomes live and is to
    /// be started; `terminate` is to drain every live transfer, after which
    /// none is live.
    pub fn process(&mut self, line: &str) -> (r: Result<Action, ProtocolError>)
        ensures
            final(self).root == old(self).root,
            match request_of_line(line@) {
                None => {
                    &&& r is Err
                    &&& r->Err_0.code == TRANSFER_FAILED
                    &&& r->Err_0.message@ == invalid_request_message()
                    &&& final(self).live_oids() == old(self).live_oids()
                },
                Some(RequestView::Init) => {
                    &&& r is Ok && r->Ok_0 is Reply && r->Ok_0->Reply_0@ == "{}"@
                    &&& final(self).live_oids() == old(self).live_oids()
                },
                Some(RequestView::Upload { oid, path }) => {
                    &&& r is Ok && r->Ok_0 is Upload
                    &&& r->Ok_0->Upload_oid@ == oid && r->Ok_0->Upload_path@ == path
                    &&& final(self).live_oids() == old(self).live_oids().push(oid)
                },
                Some(RequestView::Download { oid }) => if oid.len() >= 4 {
                    &&& r is Ok && r->Ok_0 is Download
                    &&& r->Ok_0->Download_oid@ == oid
                    &&& r->Ok_0->Download_path@ == joined(old(self).root@, object_path(oid))
                    &&& final(self).live_oids() == old(self).live_oids().push(oid)
                } else {
                    &&& r is Ok && r->Ok_0 is Reply
                    &&& r->Ok_0->Reply_0@ == complete_err_wire(
                        "complete"@,
                        oid,
                        TRANSFER_FAILED as int,
                        short_oid_message(),
                    )
                    &&& final(self).live_oids() == old(self).live_oids()
                },
                Some(RequestView::Terminate) => {
                    &&& r is Ok && r->Ok_0 is Drain
                    &&& final(self).live_oids() == Seq::<Seq<char>>::empty()
                },
            },
    {
        let request = match Request::parse(line) {
            Ok(q) => q,
            Err(e) => return Err(e),
        };
        match request {
            Request::Init => {
                let reply = crate::protocol::InitResponse::new().json();
                Ok(Action::Reply(reply))
            },
            Request::Upload { oid, path } => {
                self.live.push(oid.clone());
                proof {
                    assert(self.live_oids() =~= old(self).live_oids().push(oid@));
                }
                Ok(Action::Upload { oid, path })
            },
            Request::Download { oid } => {
                if oid.as_str().unicode_len() >= 4 {
                    let rel = lfs_object_path(oid.as_str());
                    let path = join_path(self.root.as_str(), rel.as_str());
                    self.live.push(oid.clone());
                    proof {
                        assert(self.live_oids() =~= old(self).live_oids().push(oid@));
                    }
                    Ok(Action::Download { oid, path })
                } else {
                    let failure = TransferResponse::new(
                        oid,
                        Err(String::from_str("object id too short")),
                    );
                    Ok(Action::Reply(failure.json()))
                }
            },
            Request::Terminate => {
                self.live = Vec::new();
                proof {
                    assert(self.live_oids() =~= Seq::<Seq<char>>::empty());
                }
                Ok(Action::Drain)
            },
        }
    }
}

} // verus!

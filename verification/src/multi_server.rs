use vstd::prelude::*;
use crate::json::assoc_find;
use crate::types::{ClientInfo, Tool};
use crate::transport::Transport;
use crate::client::MCPClient;
use crate::codec::some_listing;
use crate::errors::{McpError, McpResult};

verus! {

/// Identity of one managed session: its id (the manager's key), a
/// display name, the connection target, and optional header pairs.
#[derive(Debug, Clone, PartialEq)]
pub struct ServerConfig {
    pub id: String,
    pub name: String,
    pub url: String,
    pub headers: Option<Vec<(String, String)>>,
}

/// One managed session: a protocol client bound to one configuration.
pub struct ServerSession<T: Transport> {
    pub config: ServerConfig,
    pub client: MCPClient<T>,
}

/// Supervises several independent sessions, keyed by session id.
/// Sessions are registered only after a successful handshake; a
/// failure of one session never spills into another.
pub struct MultiServerManager<T: Transport> {
    pub sessions: Vec<(String, ServerSession<T>)>,
}

impl<T: Transport> MultiServerManager<T> {
    /// Session ids are unique, every key matches its session's
    /// configured id, and every registered client is initialized.
    pub open spec fn inv(&self) -> bool {
        &&& forall|i: int, j: int| 0 <= i < j < self.sessions@.len()
            ==> (#[trigger] self.sessions@[i]).0@ != (#[trigger] self.sessions@[j]).0@
        &&& forall|i: int| 0 <= i < self.sessions@.len() ==> {
            let s = #[trigger] self.sessions@[i];
            &&& s.1.config.id == s.0
            &&& s.1.client.inv()
            &&& s.1.client.state is Initialized
        }
    }

    /// An empty manager.
    pub fn new() -> (m: Self)
        ensures
            m.inv(),
            m.sessions@.len() == 0,
    {
        MultiServerManager { sessions: Vec::new() }
    }

    /// `post` registers `config` under its id with client `c`:
    /// replacing the prior session of that id without closing it, or
    /// appended when the id is new.
    pub open spec fn registered(
        pre: Seq<(String, ServerSession<T>)>,
        post: Seq<(String, ServerSession<T>)>,
        config: ServerConfig,
        c: MCPClient<T>,
    ) -> bool {
        ||| exists|i: int| 0 <= i < pre.len() && (#[trigger] pre[i]).0@ == config.id@
            && post == pre.update(i, (config.id, ServerSession { config, client: c }))
        ||| (forall|i: int| 0 <= i < pre.len() ==> (#[trigger] pre[i]).0@ != config.id@)
            && post == pre.push((config.id, ServerSession { config, client: c }))
    }

    /// Builds a client over the given transport, performs the
    /// handshake, and registers the session only on success; on
    /// failure nothing is registered and the transport is dropped
    /// without further cleanup.
    pub fn add_server(&mut self, transport: T, config: ServerConfig) -> (r: McpResult<()>)
        requires
            old(self).inv(),
        ensures
            final(self).inv(),
            r is Err ==> final(self).sessions == old(self).sessions,
            r is Ok ==> exists|c: MCPClient<T>| c.inv() && (#[trigger] c.state) is Initialized
                && Self::registered(old(self).sessions@, final(self).sessions@, config, c),
    {
        let info = ClientInfo {
            name: "MultiServerClient".to_owned(),
            version: "1.0.0".to_owned(),
        };
        let mut client = MCPClient::new(transport, info);
        match client.initialize() {
            Ok(_) => {},
            Err(e) => {
                return Err(McpError::ClientError(e));
            },
        }
        let ghost gc: MCPClient<T> = client;
        let ghost pre: Seq<(String, ServerSession<T>)> = self.sessions@;
        let key = config.id.clone();
        match assoc_find(&self.sessions, config.id.as_str()) {
            Some(i) => {
                self.sessions.remove(i);
                self.sessions.insert(i, (key, ServerSession { config, client }));
                proof {
                    assert(self.sessions@ =~= pre.update(
                        i as int,
                        self.sessions@[i as int],
                    ));
                    assert(Self::registered(pre, self.sessions@, config, gc));
                }
            },
            None => {
                self.sessions.push((key, ServerSession { config, client }));
                proof {
                    assert(Self::registered(pre, self.sessions@, config, gc));
                }
            },
        }
        Ok(())
    }

    /// Closes the session of `id` when one is there, surfacing the
    /// close outcome, and removes it from the bookkeeping either way;
    /// an unknown id is a successful no-op.
    pub fn remove_server(&mut self, id: &str) -> (r: McpResult<()>)
        requires
            old(self).inv(),
        ensures
            final(self).inv(),
            (forall|i: int| 0 <= i < old(self).sessions@.len()
                ==> (#[trigger] old(self).sessions@[i]).0@ != id@)
                ==> final(self).sessions == old(self).sessions && r is Ok,
            forall|k: int| 0 <= k < final(self).sessions@.len()
                ==> (#[trigger] final(self).sessions@[k]).0@ != id@,
            (exists|i: int| 0 <= i < old(self).sessions@.len()
                && (#[trigger] old(self).sessions@[i]).0@ == id@)
                ==> exists|i: int| 0 <= i < old(self).sessions@.len()
                    && (#[trigger] old(self).sessions@[i]).0@ == id@
                    && final(self).sessions@ == old(self).sessions@.remove(i),
    {
        match assoc_find(&self.sessions, id) {
            None => Ok(()),
            Some(i) => {
                let (_key, mut sess) = self.sessions.remove(i);
                let closed = sess.client.close();
                match closed {
                    Ok(_) => Ok(()),
                    Err(e) => Err(McpError::ClientError(e)),
                }
            },
        }
    }

    /// The client of `id`, when one is registered.
    pub fn get_client(&self, id: &str) -> (r: Option<&MCPClient<T>>)
        ensures
            match r {
                Some(c) => exists|i: int| 0 <= i < self.sessions@.len()
                    && (#[trigger] self.sessions@[i]).0@ == id@
                    && *c == self.sessions@[i].1.client,
                None => forall|i: int| 0 <= i < self.sessions@.len()
                    ==> (#[trigger] self.sessions@[i]).0@ != id@,
            },
    {
        match assoc_find(&self.sessions, id) {
            Some(i) => Some(&self.sessions[i].1.client),
            None => None,
        }
    }

    /// The ids of all registered sessions, in registration order.
    pub fn get_server_ids(&self) -> (r: Vec<String>)
        ensures
            r@.len() == self.sessions@.len(),
            forall|i: int| 0 <= i < r@.len() ==> r@[i] == (#[trigger] self.sessions@[i]).0,
    {
        let mut out: Vec<String> = Vec::new();
        let mut i: usize = 0;
        while i < self.sessions.len()
            invariant
                i <= self.sessions@.len(),
                out@.len() == i,
                forall|k: int| 0 <= k < i ==> out@[k] == (#[trigger] self.sessions@[k]).0,
            decreases self.sessions@.len() - i,
        {
            out.push(self.sessions[i].0.clone());
            i = i + 1;
        }
        out
    }

    /// Every collected pair names a registered session's id.
    pub open spec fn pairs_from_sessions(
        pairs: Seq<(String, Tool)>,
        sessions: Seq<(String, ServerSession<T>)>,
    ) -> bool {
        forall|k: int| 0 <= k < pairs.len() ==> exists|l: int| 0 <= l < sessions.len()
            && (#[trigger] pairs[k]).0@ == (#[trigger] sessions[l]).0@
    }

    /// `pairs` is the fold of the fan-out over `sessions`, in session
    /// order: under each outcome, a failed listing contributes
    /// nothing, and a successful listing — always one some reply
    /// payload reads — contributes its (session id, tool) pairs in
    /// listing order.
    pub open spec fn gathered(
        sessions: Seq<(String, ServerSession<T>)>,
        outcomes: Seq<Option<Seq<Tool>>>,
        pairs: Seq<(String, Tool)>,
    ) -> bool
        decreases sessions.len(),
    {
        if sessions.len() == 0 {
            outcomes.len() == 0 && pairs.len() == 0
        } else if outcomes.len() != sessions.len() {
            false
        } else {
            match outcomes[0] {
                None => Self::gathered(sessions.drop_first(), outcomes.drop_first(), pairs),
                Some(ts) => {
                    &&& some_listing::<Tool>("tools"@, ts)
                    &&& ts.len() <= pairs.len()
                    &&& (forall|j: int| 0 <= j < ts.len()
                        ==> (#[trigger] pairs[j]).0 == sessions[0].0 && pairs[j].1 == ts[j])
                    &&& Self::gathered(
                        sessions.drop_first(),
                        outcomes.drop_first(),
                        pairs.skip(ts.len() as int),
                    )
                },
            }
        }
    }

    /// Some per-session outcome record folds to `pairs`.
    pub open spec fn gathered_fold(
        sessions: Seq<(String, ServerSession<T>)>,
        pairs: Seq<(String, Tool)>,
    ) -> bool {
        exists|outcomes: Seq<Option<Seq<Tool>>>| #[trigger] Self::gathered(
            sessions,
            outcomes,
            pairs,
        )
    }

    /// Appending one session's outcome to a gathered fold keeps it
    /// gathered.
    proof fn lemma_gathered_snoc(
        sessions: Seq<(String, ServerSession<T>)>,
        outcomes: Seq<Option<Seq<Tool>>>,
        pairs: Seq<(String, Tool)>,
        s: (String, ServerSession<T>),
        o: Option<Seq<Tool>>,
        pairs2: Seq<(String, Tool)>,
    )
        requires
            Self::gathered(sessions, outcomes, pairs),
            match o {
                None => pairs2 == pairs,
                Some(ts) => {
                    &&& some_listing::<Tool>("tools"@, ts)
                    &&& pairs2.len() == pairs.len() + ts.len()
                    &&& (forall|j: int| 0 <= j < pairs.len() ==> #[trigger] pairs2[j] == pairs[j])
                    &&& (forall|j: int| 0 <= j < ts.len()
                        ==> (#[trigger] pairs2[pairs.len() + j]).0 == s.0
                            && pairs2[pairs.len() + j].1 == ts[j])
                },
            },
        ensures
            Self::gathered(sessions.push(s), outcomes.push(o), pairs2),
        decreases sessions.len(),
    {
        let ss2 = sessions.push(s);
        let os2 = outcomes.push(o);
        if sessions.len() == 0 {
            assert(ss2[0] == s && os2[0] == o);
            assert(ss2.drop_first() =~= Seq::<(String, ServerSession<T>)>::empty());
            assert(os2.drop_first() =~= Seq::<Option<Seq<Tool>>>::empty());
            match o {
                None => {
                    assert(Self::gathered(ss2.drop_first(), os2.drop_first(), pairs2));
                },
                Some(ts) => {
                    assert(pairs2.skip(ts.len() as int)
                        =~= Seq::<(String, Tool)>::empty());
                    assert forall|j: int| 0 <= j < ts.len()
                        implies (#[trigger] pairs2[j]).0 == ss2[0].0
                            && pairs2[j].1 == ts[j] by {
                        assert(pairs2[pairs.len() + j] == pairs2[j]);
                    }
                    assert(Self::gathered(
                        ss2.drop_first(),
                        os2.drop_first(),
                        pairs2.skip(ts.len() as int),
                    ));
                },
            }
        } else {
            assert(ss2[0] == sessions[0]);
            assert(os2[0] == outcomes[0]);
            assert(ss2.drop_first() =~= sessions.drop_first().push(s));
            assert(os2.drop_first() =~= outcomes.drop_first().push(o));
            match outcomes[0] {
                None => {
                    Self::lemma_gathered_snoc(
                        sessions.drop_first(),
                        outcomes.drop_first(),
                        pairs,
                        s,
                        o,
                        pairs2,
                    );
                    assert(Self::gathered(ss2.drop_first(), os2.drop_first(), pairs2));
                },
                Some(ts0) => {
                    let a = ts0.len() as int;
                    let prest = pairs.skip(a);
                    let prest2 = pairs2.skip(a);
                    match o {
                        None => {
                            assert(prest2 =~= prest);
                        },
                        Some(ts) => {
                            assert forall|j: int| 0 <= j < prest.len()
                                implies #[trigger] prest2[j] == prest[j] by {
                                assert(pairs2[a + j] == pairs[a + j]);
                            }
                            assert forall|j: int| 0 <= j < ts.len()
                                implies (#[trigger] prest2[prest.len() + j]).0 == s.0
                                    && prest2[prest.len() + j].1 == ts[j] by {
                                assert(prest2[prest.len() + j]
                                    == pairs2[pairs.len() + j]);
                            }
                        },
                    }
                    Self::lemma_gathered_snoc(
                        sessions.drop_first(),
                        outcomes.drop_first(),
                        prest,
                        s,
                        o,
                        prest2,
                    );
                    assert forall|j: int| 0 <= j < ts0.len()
                        implies (#[trigger] pairs2[j]).0 == ss2[0].0
                            && pairs2[j].1 == ts0[j] by {
                        assert(pairs2[j] == pairs[j]);
                    }
                    assert(pairs2.skip(a) == prest2);
                    assert(Self::gathered(ss2.drop_first(), os2.drop_first(), pairs2.skip(a)));
                },
            }
        }
    }

    /// Collects every session's tools as (session id, tool) pairs.
    /// One session's failure is skipped, never aborting the fan-out:
    /// the result is the fold, in session order, of the successful
    /// listings' pairs.
    pub fn get_all_tools(&mut self) -> (r: McpResult<Vec<(String, Tool)>>)
        requires
            old(self).inv(),
        ensures
            final(self).inv(),
            r is Ok,
            final(self).sessions@.len() == old(self).sessions@.len(),
            forall|i: int| 0 <= i < old(self).sessions@.len()
                ==> (#[trigger] final(self).sessions@[i]).0 == old(self).sessions@[i].0
                    && final(self).sessions@[i].1.config == old(self).sessions@[i].1.config,
            r matches Ok(pairs) ==> Self::gathered_fold(old(self).sessions@, pairs@),
            r matches Ok(pairs) ==> Self::pairs_from_sessions(pairs@, old(self).sessions@),
    {
        let mut out: Vec<(String, Tool)> = Vec::new();
        let ghost mut outcomes: Seq<Option<Seq<Tool>>> = Seq::empty();
        let mut i: usize = 0;
        proof {
            assert(old(self).sessions@.take(0)
                =~= Seq::<(String, ServerSession<T>)>::empty());
        }
        while i < self.sessions.len()
            invariant
                self.inv(),
                i <= self.sessions@.len(),
                self.sessions@.len() == old(self).sessions@.len(),
                forall|k: int| 0 <= k < old(self).sessions@.len()
                    ==> (#[trigger] self.sessions@[k]).0 == old(self).sessions@[k].0
                        && self.sessions@[k].1.config == old(self).sessions@[k].1.config,
                outcomes.len() == i,
                Self::gathered(old(self).sessions@.take(i as int), outcomes, out@),
                Self::pairs_from_sessions(out@, old(self).sessions@),
            decreases self.sessions@.len() - i,
        {
            let ghost pre: Seq<(String, ServerSession<T>)> = self.sessions@;
            let ghost out_pre: Seq<(String, Tool)> = out@;
            let (key, mut sess) = self.sessions.remove(i);
            let ghost gkey: String = key;
            proof {
                assert(gkey == old(self).sessions@[i as int].0);
            }
            let listed = sess.client.list_tools();
            match listed {
                Ok(mut tools) => {
                    let ghost gts: Seq<Tool> = tools@;
                    proof {
                        assert(some_listing::<Tool>("tools"@, gts));
                    }
                    while tools.len() > 0
                        invariant
                            tools@.len() <= gts.len(),
                            tools@ == gts.skip(gts.len() - tools@.len()),
                            out@.len() == out_pre.len() + (gts.len() - tools@.len()),
                            forall|j: int| 0 <= j < out_pre.len()
                                ==> #[trigger] out@[j] == out_pre[j],
                            forall|j: int| 0 <= j < gts.len() - tools@.len()
                                ==> (#[trigger] out@[out_pre.len() + j]).0 == key
                                    && out@[out_pre.len() + j].1 == gts[j],
                        decreases tools@.len(),
                    {
                        let ghost consumed: int = gts.len() - tools@.len();
                        let t = tools.remove(0);
                        proof {
                            assert(t == gts[consumed]);
                            assert(tools@ =~= gts.skip(consumed + 1));
                        }
                        out.push((key.clone(), t));
                    }
                    proof {
                        assert(key == gkey);
                        Self::lemma_gathered_snoc(
                            old(self).sessions@.take(i as int),
                            outcomes,
                            out_pre,
                            old(self).sessions@[i as int],
                            Some(gts),
                            out@,
                        );
                        outcomes = outcomes.push(Some(gts));
                        assert forall|k: int| 0 <= k < out@.len()
                            implies exists|l: int| 0 <= l < old(self).sessions@.len()
                                && (#[trigger] out@[k]).0@
                                    == (#[trigger] old(self).sessions@[l]).0@ by {
                            if k < out_pre.len() {
                                assert(out@[k] == out_pre[k]);
                                assert(exists|l: int| 0 <= l < old(self).sessions@.len()
                                    && (#[trigger] out_pre[k]).0@
                                        == (#[trigger] old(self).sessions@[l]).0@);
                            } else {
                                let j = k - out_pre.len();
                                assert((out@[out_pre.len() + j]).0 == key);
                                assert(out@[k].0 == gkey);
                                assert(gkey == (old(self).sessions@[i as int]).0);
                            }
                        }
                    }
                },
                Err(_) => {
                    proof {
                        Self::lemma_gathered_snoc(
                            old(self).sessions@.take(i as int),
                            outcomes,
                            out_pre,
                            old(self).sessions@[i as int],
                            None,
                            out@,
                        );
                        outcomes = outcomes.push(None);
                    }
                },
            }
            self.sessions.insert(i, (key, sess));
            proof {
                assert(self.sessions@ =~= pre.update(i as int, self.sessions@[i as int]));
                assert(old(self).sessions@.take(i as int).push(
                    old(self).sessions@[i as int],
                ) =~= old(self).sessions@.take(i as int + 1));
            }
            i = i + 1;
        }
        proof {
            assert(old(self).sessions@.take(old(self).sessions@.len() as int)
                =~= old(self).sessions@);
            assert(Self::gathered(old(self).sessions@, outcomes, out@));
            assert(Self::gathered_fold(old(self).sessions@, out@));
        }
        Ok(out)
    }
}

impl<T: Transport> Default for MultiServerManager<T> {
    /// The same empty manager `new` builds.
    fn default() -> (m: Self)
        ensures
            m.inv(),
            m.sessions@.len() == 0,
    {
        Self::new()
    }
}

} // verus!

//! The catalog of server profiles and the operations that change it.
use crate::platform::Platform;
use crate::text::{lemma_texts_push, same_text, texts};
use vstd::prelude::*;
use vstd::string::*;

verus! {

/// One server profile as a mathematical record: every field is the text it
/// holds.
pub struct ServerView {
    pub id: Seq<char>,
    pub name: Seq<char>,
    pub server: Seq<char>,
    pub listen: Seq<char>,
    pub token: Seq<char>,
    pub ip: Seq<char>,
    pub dns: Seq<char>,
    pub ech: Seq<char>,
    pub routing_mode: Seq<char>,
}

/// A named bundle of worker arguments, identified by `id`.
#[derive(Debug, PartialEq, Eq)]
pub struct Server {
    pub id: String,
    pub name: String,
    pub server: String,
    pub listen: String,
    pub token: String,
    pub ip: String,
    pub dns: String,
    pub ech: String,
    pub routing_mode: String,
}

impl View for Server {
    type V = ServerView;

    open spec fn view(&self) -> ServerView {
        ServerView {
            id: self.id@,
            name: self.name@,
            server: self.server@,
            listen: self.listen@,
            token: self.token@,
            ip: self.ip@,
            dns: self.dns@,
            ech: self.ech@,
            routing_mode: self.routing_mode@,
        }
    }
}

impl Clone for Server {
    fn clone(&self) -> (copy: Self)
        ensures
            copy@ == self@,
    {
        Server {
            id: self.id.clone(),
            name: self.name.clone(),
            server: self.server.clone(),
            listen: self.listen.clone(),
            token: self.token.clone(),
            ip: self.ip.clone(),
            dns: self.dns.clone(),
            ech: self.ech.clone(),
            routing_mode: self.routing_mode.clone(),
        }
    }
}

/// The routing mode of a profile that names none.
pub open spec fn spec_default_routing_mode() -> Seq<char> {
    "bypass_cn"@
}

/// The routing mode of a profile that names none: `bypass_cn`.
pub fn default_routing_mode() -> (mode: String)
    ensures
        mode@ == spec_default_routing_mode(),
{
    "bypass_cn".to_owned()
}

/// The profile that a fresh catalog starts with, under the identifier `id`.
pub open spec fn default_server(id: Seq<char>) -> ServerView {
    ServerView {
        id,
        name: "默认服务器"@,
        server: "example.com:443"@,
        listen: "127.0.0.1:30000"@,
        token: Seq::empty(),
        ip: "saas.sin.fan"@,
        dns: "dns.alidns.com/dns-query"@,
        ech: "cloudflare-ech.com"@,
        routing_mode: spec_default_routing_mode(),
    }
}

/// Whether `c` is a digit of lower-case hexadecimal notation.
pub open spec fn is_lower_hex(c: char) -> bool {
    ('0' <= c && c <= '9') || ('a' <= c && c <= 'f')
}

/// Whether `id` has the form of a generated identifier: a random (version
/// 4) UUID in hyphenated lower-case notation, as in
/// `xxxxxxxx-xxxx-4xxx-yxxx-xxxxxxxxxxxx` with `y` one of 8, 9, a, b.
pub open spec fn is_generated_id(id: Seq<char>) -> bool {
    &&& id.len() == 36
    &&& forall|i: int|
        0 <= i < 36 ==> if i == 8 || i == 13 || i == 18 || i == 23 {
            (#[trigger] id[i]) == '-'
        } else {
            is_lower_hex(id[i])
        }
    &&& id[14] == '4'
    &&& id[19] == '8' || id[19] == '9' || id[19] == 'a' || id[19] == 'b'
}

/// Whether `server` is a default profile under a generated identifier.
pub open spec fn is_new_default(server: ServerView) -> bool {
    server == default_server(server.id) && is_generated_id(server.id)
}

/// Calls `uuid::Uuid::new_v4` and renders the identifier with its `Display`
/// impl. The contract claims the form of that rendering and no more: the
/// hyphenated lower-case notation of 36 characters, with the version digit
/// 4 and a variant digit of 8, 9, a or b, which `new_v4` sets whatever the
/// random bits are. Which other digits come out is left open; in
/// particular nothing says that two calls differ. `new_v4` panics where the
/// operating system cannot supply random bytes.
#[verifier::external_body]
fn generate_id() -> (id: String)
    ensures
        is_generated_id(id@),
{
    uuid::Uuid::new_v4().to_string()
}

impl Default for Server {
    /// The default profile under a newly generated identifier.
    fn default() -> (server: Self)
        ensures
            is_new_default(server@),
    {
        Server {
            id: generate_id(),
            name: "默认服务器".to_owned(),
            server: "example.com:443".to_owned(),
            listen: "127.0.0.1:30000".to_owned(),
            token: String::new(),
            ip: "saas.sin.fan".to_owned(),
            dns: "dns.alidns.com/dns-query".to_owned(),
            ech: "cloudflare-ech.com".to_owned(),
            routing_mode: default_routing_mode(),
        }
    }
}

/// The views of a list of profiles.
pub open spec fn server_views(servers: Seq<Server>) -> Seq<ServerView> {
    Seq::new(servers.len(), |i: int| servers[i]@)
}

/// The text of an identifier that may be absent.
pub open spec fn id_view(id: Option<String>) -> Option<Seq<char>> {
    match id {
        Some(id) => Some(id@),
        None => None,
    }
}

/// The view of a profile that may be absent.
pub open spec fn server_view(server: Option<Server>) -> Option<ServerView> {
    match server {
        Some(server) => Some(server@),
        None => None,
    }
}

/// The catalog as a mathematical record: the profiles in their order, and
/// the identifier of the current one.
pub struct AppConfigView {
    pub servers: Seq<ServerView>,
    pub current_server_id: Option<Seq<char>>,
}

/// Whether one of `servers` has the identifier `id`.
pub open spec fn holds_id(servers: Seq<ServerView>, id: Seq<char>) -> bool {
    exists|i: int| 0 <= i < servers.len() && (#[trigger] servers[i]).id == id
}

/// Whether no identifier occurs twice among `servers`.
pub open spec fn distinct_ids(servers: Seq<ServerView>) -> bool {
    forall|i: int, j: int|
        0 <= i < j < servers.len() ==> (#[trigger] servers[i]).id != (#[trigger] servers[j]).id
}

impl AppConfigView {
    /// Whether some profile has the identifier `id`.
    pub open spec fn has_id(self, id: Seq<char>) -> bool {
        holds_id(self.servers, id)
    }

    /// Whether `i` is the place of the first profile with the identifier
    /// `id`.
    pub open spec fn is_position(self, id: Seq<char>, i: int) -> bool {
        &&& 0 <= i < self.servers.len()
        &&& self.servers[i].id == id
        &&& forall|j: int| 0 <= j < i ==> (#[trigger] self.servers[j]).id != id
    }

    /// The place of the first profile with the identifier `id`, where there
    /// is one.
    pub open spec fn position(self, id: Seq<char>) -> int {
        choose|i: int| self.is_position(id, i)
    }

    /// No identifier occurs twice.
    pub open spec fn unique_ids(self) -> bool {
        distinct_ids(self.servers)
    }

    /// The catalog's invariant: no identifier occurs twice, and the current
    /// identifier, when set, is that of a profile.
    pub open spec fn valid(self) -> bool {
        &&& self.unique_ids()
        &&& self.current_server_id is Some ==> self.has_id(self.current_server_id->0)
    }

    /// The current profile: the first with the current identifier, or none
    /// where no profile has it; with no current identifier, the first
    /// profile of all.
    pub open spec fn current(self) -> Option<ServerView> {
        match self.current_server_id {
            Some(id) => if self.has_id(id) {
                Some(self.servers[self.position(id)])
            } else {
                None
            },
            None => if self.servers.len() > 0 {
                Some(self.servers[0])
            } else {
                None
            },
        }
    }

    /// The catalog after `id` was selected: an identifier that no profile
    /// has is passed over.
    pub open spec fn selected(self, id: Seq<char>) -> AppConfigView {
        if self.has_id(id) {
            AppConfigView { current_server_id: Some(id), ..self }
        } else {
            self
        }
    }

    /// Whether a new profile may keep the identifier `id` that it brings:
    /// the identifier is not empty and no profile has it.
    pub open spec fn accepts_id(self, id: Seq<char>) -> bool {
        id.len() > 0 && !self.has_id(id)
    }

    /// The catalog after `server` was added: it stands last and is current.
    pub open spec fn added(self, server: ServerView) -> AppConfigView {
        AppConfigView {
            servers: self.servers.push(server),
            current_server_id: Some(server.id),
        }
    }

    /// The catalog after an update with `server`: it takes the place of the
    /// first profile with its identifier; where there is none, nothing
    /// changes.
    pub open spec fn updated(self, server: ServerView) -> AppConfigView {
        if self.has_id(server.id) {
            AppConfigView {
                servers: self.servers.update(self.position(server.id), server),
                ..self
            }
        } else {
            self
        }
    }

    /// The catalog after the first profile with the identifier `id` was
    /// given the name `name`; where there is none, nothing changes.
    pub open spec fn renamed(self, id: Seq<char>, name: Seq<char>) -> AppConfigView {
        if self.has_id(id) {
            let at = self.position(id);
            AppConfigView {
                servers: self.servers.update(at, ServerView { name, ..self.servers[at] }),
                ..self
            }
        } else {
            self
        }
    }

    /// The profiles whose identifier is not `id`.
    pub open spec fn kept(self, id: Seq<char>) -> Seq<ServerView> {
        self.servers.filter(|server: ServerView| server.id != id)
    }

    /// The catalog after the profiles with the identifier `id` were
    /// deleted. A catalog that would be left empty gets `spare` as its one
    /// profile, which is then current. Otherwise, where `id` was current,
    /// the first profile left is current.
    pub open spec fn deleted(self, id: Seq<char>, spare: ServerView) -> AppConfigView {
        let kept = self.kept(id);
        if kept.len() == 0 {
            AppConfigView { servers: seq![spare], current_server_id: Some(spare.id) }
        } else {
            AppConfigView {
                servers: kept,
                current_server_id: if self.current_server_id == Some(id) {
                    Some(kept[0].id)
                } else {
                    self.current_server_id
                },
            }
        }
    }

    /// The catalog that a first start begins with: the default profile
    /// under the identifier `id`, which is current.
    pub open spec fn initial(id: Seq<char>) -> AppConfigView {
        AppConfigView { servers: seq![default_server(id)], current_server_id: Some(id) }
    }
}

/// The first place with an identifier is its position.
pub proof fn lemma_position(config: AppConfigView, id: Seq<char>, i: int)
    requires
        config.is_position(id, i),
    ensures
        config.has_id(id),
        config.position(id) == i,
{
    let chosen = config.position(id);
    assert(config.is_position(id, chosen));
    if chosen < i {
        assert(config.servers[chosen].id != id);
    }
    if i < chosen {
        assert(config.servers[i].id != id);
    }
}

/// The catalog: the profiles in their order, and which one is current.
#[derive(Debug, PartialEq, Eq)]
pub struct AppConfig {
    pub servers: Vec<Server>,
    pub current_server_id: Option<String>,
}

impl View for AppConfig {
    type V = AppConfigView;

    open spec fn view(&self) -> AppConfigView {
        AppConfigView {
            servers: server_views(self.servers@),
            current_server_id: id_view(self.current_server_id),
        }
    }
}

fn clone_servers(servers: &Vec<Server>) -> (copy: Vec<Server>)
    ensures
        server_views(copy@) == server_views(servers@),
{
    let mut copy: Vec<Server> = Vec::new();
    let mut i: usize = 0;
    while i < servers.len()
        invariant
            i <= servers.len(),
            copy.len() == i,
            forall|j: int| 0 <= j < i ==> copy@[j]@ == servers@[j]@,
        decreases servers.len() - i,
    {
        copy.push(servers[i].clone());
        i += 1;
    }
    assert(server_views(copy@) =~= server_views(servers@));
    copy
}

fn clone_id(id: &Option<String>) -> (copy: Option<String>)
    ensures
        id_view(copy) == id_view(*id),
{
    match id {
        Some(id) => Some(id.clone()),
        None => None,
    }
}

impl Clone for AppConfig {
    fn clone(&self) -> (copy: Self)
        ensures
            copy@ == self@,
    {
        AppConfig {
            servers: clone_servers(&self.servers),
            current_server_id: clone_id(&self.current_server_id),
        }
    }
}

impl Default for AppConfig {
    /// The catalog of a first start: one default profile, which is current.
    fn default() -> (config: Self)
        ensures
            config@.servers.len() == 1,
            config@ == AppConfigView::initial(config@.servers[0].id),
            is_generated_id(config@.servers[0].id),
    {
        let server = Server::default();
        let id = server.id.clone();
        let mut servers: Vec<Server> = Vec::new();
        servers.push(server);
        assert(server_views(servers@) =~= seq![server@]);
        AppConfig { servers, current_server_id: Some(id) }
    }
}

fn find_id(servers: &Vec<Server>, id: &str) -> (found: Option<usize>)
    ensures
        match found {
            Some(i) => i < servers.len() && servers@[i as int]@.id == id@ && forall|j: int|
                0 <= j < i ==> servers@[j]@.id != id@,
            None => forall|j: int| 0 <= j < servers.len() ==> servers@[j]@.id != id@,
        },
{
    let mut i: usize = 0;
    while i < servers.len()
        invariant
            i <= servers.len(),
            forall|j: int| 0 <= j < i ==> servers@[j]@.id != id@,
        decreases servers.len() - i,
    {
        if same_text(servers[i].id.as_str(), id) {
            return Some(i);
        }
        i += 1;
    }
    None
}

/// The store of the catalog.
#[derive(Debug)]
pub struct ConfigManager {
    config: AppConfig,
}

impl View for ConfigManager {
    type V = AppConfigView;

    closed spec fn view(&self) -> AppConfigView {
        self.config@
    }
}

impl ConfigManager {
    /// A store over the catalog that was loaded, or over the catalog of a
    /// first start where none could be loaded.
    pub fn new(loaded: Option<AppConfig>) -> (manager: Self)
        ensures
            match loaded {
                Some(config) => manager@ == config@,
                None => manager@.servers.len() == 1 && manager@ == AppConfigView::initial(
                    manager@.servers[0].id,
                ) && is_generated_id(manager@.servers[0].id),
            },
    {
        match loaded {
            Some(config) => ConfigManager { config },
            None => ConfigManager { config: AppConfig::default() },
        }
    }

    /// A copy of the whole catalog, as it is to be written out.
    pub fn snapshot(&self) -> (config: AppConfig)
        ensures
            config@ == self@,
    {
        self.config.clone()
    }

    /// All profiles, in their order.
    pub fn get_servers(&self) -> (servers: Vec<Server>)
        ensures
            server_views(servers@) == self@.servers,
    {
        clone_servers(&self.config.servers)
    }

    /// The current profile.
    pub fn get_current_server(&self) -> (server: Option<Server>)
        ensures
            server_view(server) == self@.current(),
    {
        match &self.config.current_server_id {
            Some(id) => match find_id(&self.config.servers, id.as_str()) {
                Some(i) => {
                    proof {
                        lemma_position(self@, id@, i as int);
                    }
                    Some(self.config.servers[i].clone())
                },
                None => None,
            },
            None => if self.config.servers.len() > 0 {
                Some(self.config.servers[0].clone())
            } else {
                None
            },
        }
    }

    /// The identifier of the current profile, as it is stored.
    pub fn get_current_server_id(&self) -> (id: Option<String>)
        ensures
            id_view(id) == self@.current_server_id,
    {
        clone_id(&self.config.current_server_id)
    }

    /// Makes the profile with the identifier `id` current; an identifier
    /// that no profile has is passed over.
    pub fn set_current_server(&mut self, id: &str)
        ensures
            final(self)@ == old(self)@.selected(id@),
    {
        match find_id(&self.config.servers, id) {
            Some(i) => {
                proof {
                    lemma_position(self@, id@, i as int);
                }
                self.config.current_server_id = Some(id.to_owned());
            },
            None => {},
        }
    }

    /// Adds a profile at the end and makes it current. The profile keeps
    /// its identifier where it brings one that no profile of the catalog
    /// has; a profile that comes without an identifier, or with one that is
    /// taken, is given a generated one. Returns the identifier under which
    /// the profile was stored. Identifiers that were distinct stay so,
    /// unless the generated one is in the catalog already.
    pub fn add_server(&mut self, server: Server) -> (id: String)
        ensures
            old(self)@.accepts_id(server@.id) ==> id@ == server@.id,
            !old(self)@.accepts_id(server@.id) ==> is_generated_id(id@),
            final(self)@ == old(self)@.added(ServerView { id: id@, ..server@ }),
            old(self)@.unique_ids() && !old(self)@.has_id(id@) ==> final(self)@.unique_ids(),
            old(self)@.valid() && !old(self)@.has_id(id@) ==> final(self)@.valid(),
    {
        let mut server = server;
        let taken = match find_id(&self.config.servers, server.id.as_str()) {
            Some(at) => {
                assert(self@.servers[at as int].id == server@.id);
                true
            },
            None => {
                assert forall|j: int| 0 <= j < self@.servers.len() implies (
                #[trigger] self@.servers[j]).id != server@.id by {
                    assert(self@.servers[j] == self.config.servers@[j]@);
                }
                false
            },
        };
        if taken || server.id.as_str().is_empty() {
            server.id = generate_id();
        }
        let id = server.id.clone();
        proof {
            lemma_add(self@, server@);
        }
        self.config.servers.push(server);
        self.config.current_server_id = Some(id.clone());
        assert(server_views(self.config.servers@) =~= old(self)@.servers.push(server@));
        id
    }

    /// Puts `server` in the place of the first profile with its
    /// identifier. Returns whether there was one.
    pub fn update_server(&mut self, server: Server) -> (found: bool)
        ensures
            found == old(self)@.has_id(server@.id),
            final(self)@ == old(self)@.updated(server@),
    {
        match find_id(&self.config.servers, server.id.as_str()) {
            Some(i) => {
                proof {
                    lemma_position(self@, server@.id, i as int);
                }
                self.config.servers.set(i, server);
                assert(server_views(self.config.servers@) =~= old(self)@.servers.update(
                    i as int,
                    server@,
                ));
                true
            },
            None => false,
        }
    }

    /// Gives the first profile with the identifier `id` a new name; any
    /// name will do, the empty one too. Returns whether there was one.
    pub fn rename_server(&mut self, id: &str, new_name: &str) -> (found: bool)
        ensures
            found == old(self)@.has_id(id@),
            final(self)@ == old(self)@.renamed(id@, new_name@),
    {
        match find_id(&self.config.servers, id) {
            Some(i) => {
                proof {
                    lemma_position(self@, id@, i as int);
                }
                let mut server = self.config.servers[i].clone();
                server.name = new_name.to_owned();
                self.config.servers.set(i, server);
                assert(server_views(self.config.servers@) =~= old(self)@.servers.update(
                    i as int,
                    server@,
                ));
                true
            },
            None => false,
        }
    }

    /// Deletes every profile with the identifier `id`. A catalog that this
    /// leaves empty gets a new default profile, which becomes current.
    /// Otherwise, where `id` was current, the first profile left becomes
    /// current. Returns whether a profile had the identifier.
    pub fn delete_server(&mut self, id: &str) -> (removed: bool)
        ensures
            removed == old(self)@.has_id(id@),
            final(self)@.servers.len() > 0,
            final(self)@ == old(self)@.deleted(id@, final(self)@.servers[0]),
            old(self)@.kept(id@).len() == 0 ==> is_new_default(final(self)@.servers[0]),
    {
        let initial_len = self.config.servers.len();
        let ghost unwanted = |server: ServerView| server.id != id@;
        let ghost before = self@.servers;
        let mut kept: Vec<Server> = Vec::new();
        let mut i: usize = 0;
        assert(before.take(0) =~= Seq::<ServerView>::empty());
        assert(server_views(kept@) =~= before.take(0).filter(unwanted));
        while i < self.config.servers.len()
            invariant
                *self == *old(self),
                before == self@.servers,
                i <= self.config.servers.len(),
                unwanted == |server: ServerView| server.id != id@,
                server_views(kept@) == before.take(i as int).filter(unwanted),
            decreases self.config.servers.len() - i,
        {
            let keep = !same_text(self.config.servers[i].id.as_str(), id);
            proof {
                assert(before.take(i + 1).drop_last() =~= before.take(i as int));
                assert(before.take(i + 1).last() == self.config.servers@[i as int]@);
                assert(keep == unwanted(self.config.servers@[i as int]@));
                reveal_with_fuel(Seq::filter, 2);
            }
            if keep {
                let server = self.config.servers[i].clone();
                kept.push(server);
                assert(server_views(kept@) =~= before.take(i as int).filter(unwanted).push(
                    server@,
                ));
            }
            i += 1;
        }
        assert(before.take(initial_len as int) =~= before);
        assert(server_views(kept@) == old(self)@.kept(id@));
        proof {
            lemma_kept_len(before, id@);
        }
        let removed = kept.len() < initial_len;
        let emptied = kept.len() == 0;
        if emptied {
            let server = Server::default();
            kept.push(server);
            assert(server_views(kept@) =~= seq![server@]);
        }
        let was_current = match &self.config.current_server_id {
            Some(current) => same_text(current.as_str(), id),
            None => false,
        };
        self.config.servers = kept;
        if emptied || was_current {
            self.config.current_server_id = Some(self.config.servers[0].id.clone());
        }
        assert(self@ == old(self)@.deleted(id@, self@.servers[0]));
        removed
    }
}

/// A filter that nothing fails keeps everything.
proof fn lemma_keep_all(servers: Seq<ServerView>, id: Seq<char>)
    requires
        forall|i: int| 0 <= i < servers.len() ==> (#[trigger] servers[i]).id != id,
    ensures
        servers.filter(|server: ServerView| server.id != id) == servers,
    decreases servers.len(),
{
    reveal_with_fuel(Seq::filter, 2);
    if servers.len() > 0 {
        let front = servers.drop_last();
        assert forall|i: int| 0 <= i < front.len() implies (#[trigger] front[i]).id != id by {
            assert(front[i] == servers[i]);
        }
        lemma_keep_all(front, id);
        assert(servers.filter(|server: ServerView| server.id != id) =~= servers);
    }
}

/// The filter drops something exactly where the identifier occurs.
proof fn lemma_kept_len(servers: Seq<ServerView>, id: Seq<char>)
    ensures
        servers.filter(|server: ServerView| server.id != id).len() <= servers.len(),
        holds_id(servers, id) <==> servers.filter(|server: ServerView| server.id != id).len()
            < servers.len(),
    decreases servers.len(),
{
    reveal_with_fuel(Seq::filter, 2);
    if servers.len() > 0 {
        let front = servers.drop_last();
        lemma_kept_len(front, id);
        if holds_id(front, id) {
            let at = choose|i: int| 0 <= i < front.len() && (#[trigger] front[i]).id == id;
            assert(servers[at] == front[at]);
        }
        if holds_id(servers, id) && servers.last().id != id {
            let at = choose|i: int| 0 <= i < servers.len() && (#[trigger] servers[i]).id == id;
            assert(front[at] == servers[at]);
        }
        if servers.last().id == id {
            assert(servers[servers.len() - 1].id == id);
        }
    }
}

/// Among distinct identifiers, a filter on one of them drops one profile.
proof fn lemma_drop_one(servers: Seq<ServerView>, id: Seq<char>)
    requires
        distinct_ids(servers),
        holds_id(servers, id),
    ensures
        servers.filter(|server: ServerView| server.id != id).len() == servers.len() - 1,
    decreases servers.len(),
{
    reveal_with_fuel(Seq::filter, 2);
    let at = choose|i: int| 0 <= i < servers.len() && (#[trigger] servers[i]).id == id;
    let front = servers.drop_last();
    assert forall|i: int, j: int| 0 <= i < j < front.len() implies (#[trigger] front[i]).id != (
    #[trigger] front[j]).id by {
        assert(front[i] == servers[i]);
        assert(front[j] == servers[j]);
    }
    if servers.last().id == id {
        assert forall|i: int| 0 <= i < front.len() implies (#[trigger] front[i]).id != id by {
            assert(front[i] == servers[i]);
            assert(servers[i].id != servers[servers.len() - 1].id);
        }
        lemma_keep_all(front, id);
    } else {
        assert(at < front.len());
        assert(front[at] == servers[at]);
        assert(holds_id(front, id));
        lemma_drop_one(front, id);
    }
}

/// What the filter keeps was there before, in the same order, with its
/// identifier unlike the one filtered out.
proof fn lemma_kept_from(servers: Seq<ServerView>, id: Seq<char>)
    ensures
        ({
            let kept = servers.filter(|server: ServerView| server.id != id);
            &&& kept.len() <= servers.len()
            &&& forall|i: int|
                0 <= i < kept.len() ==> (#[trigger] kept[i]).id != id && servers.contains(kept[i])
            &&& forall|i: int|
                0 <= i < servers.len() && (#[trigger] servers[i]).id != id ==> kept.contains(
                    servers[i],
                )
            &&& distinct_ids(servers) ==> distinct_ids(kept)
        }),
    decreases servers.len(),
{
    reveal_with_fuel(Seq::filter, 2);
    let wanted = |server: ServerView| server.id != id;
    let kept = servers.filter(wanted);
    if servers.len() > 0 {
        let front = servers.drop_last();
        let last = servers.last();
        let before = front.filter(wanted);
        lemma_kept_from(front, id);
        assert forall|i: int| 0 <= i < kept.len() implies (#[trigger] kept[i]).id != id
            && servers.contains(kept[i]) by {
            if i < before.len() {
                assert(kept[i] == before[i]);
                let k = choose|k: int| 0 <= k < front.len() && front[k] == before[i];
                assert(servers[k] == kept[i]);
            } else {
                assert(kept[i] == last);
                assert(servers[servers.len() - 1] == last);
            }
        }
        assert forall|i: int| 0 <= i < servers.len() && (#[trigger] servers[i]).id
            != id implies kept.contains(servers[i]) by {
            if i < front.len() {
                assert(front[i] == servers[i]);
                let k = choose|k: int| 0 <= k < before.len() && before[k] == front[i];
                assert(kept[k] == servers[i]);
            } else {
                assert(kept[kept.len() - 1] == servers[i]);
            }
        }
        if distinct_ids(servers) {
            assert forall|i: int, j: int| 0 <= i < j < front.len() implies (
            #[trigger] front[i]).id != (#[trigger] front[j]).id by {
                assert(front[i] == servers[i]);
                assert(front[j] == servers[j]);
            }
            assert forall|i: int, j: int| 0 <= i < j < kept.len() implies (
            #[trigger] kept[i]).id != (#[trigger] kept[j]).id by {
                if j < before.len() {
                    assert(kept[i] == before[i] && kept[j] == before[j]);
                } else {
                    assert(kept[j] == last);
                    assert(kept[i] == before[i]);
                    let k = choose|k: int| 0 <= k < front.len() && front[k] == before[i];
                    assert(servers[k] == kept[i]);
                    assert(servers[k].id != servers[servers.len() - 1].id);
                }
            }
        }
    }
}

/// Deleting from a valid catalog that is not empty: where no profile has
/// the identifier, nothing changes; where one has it, the catalog has one
/// profile less, but never fewer than one. Either way the catalog stays
/// valid, so that a current identifier still names a profile.
pub proof fn lemma_delete(config: AppConfigView, id: Seq<char>, spare: ServerView)
    requires
        config.valid(),
        config.servers.len() > 0,
    ensures
        !config.has_id(id) ==> config.deleted(id, spare) == config,
        config.has_id(id) ==> config.deleted(id, spare).servers.len() == if config.servers.len()
            - 1 > 1 {
            config.servers.len() - 1
        } else {
            1
        },
        config.deleted(id, spare).valid(),
        config.current_server_id is Some ==> config.deleted(id, spare).current_server_id is Some,
{
    let after = config.deleted(id, spare);
    let kept = config.kept(id);
    lemma_kept_from(config.servers, id);
    if config.has_id(id) {
        lemma_drop_one(config.servers, id);
    } else {
        lemma_keep_all(config.servers, id);
        assert(kept == config.servers);
        assert(config.current_server_id != Some(id));
    }
    if kept.len() > 0 {
        assert(after.servers == kept);
        assert(after.unique_ids());
        if config.current_server_id == Some(id) {
            assert(after.servers[0].id == after.current_server_id->0);
        } else if config.current_server_id is Some {
            let current = config.current_server_id->0;
            let at = choose|i: int|
                0 <= i < config.servers.len() && (#[trigger] config.servers[i]).id == current;
            assert(kept.contains(config.servers[at]));
            let to = choose|k: int| 0 <= k < kept.len() && kept[k] == config.servers[at];
            assert(after.servers[to].id == current);
        }
    } else {
        assert(after.servers =~= seq![spare]);
        assert(after.servers[0].id == after.current_server_id->0);
    }
}

/// Deleting the current profile while others remain makes the first of
/// those that remain current.
pub proof fn lemma_delete_current(config: AppConfigView, id: Seq<char>, spare: ServerView)
    requires
        config.current_server_id == Some(id),
        config.kept(id).len() > 0,
    ensures
        config.deleted(id, spare).current_server_id == Some(config.kept(id)[0].id),
        config.deleted(id, spare).servers == config.kept(id),
{
}

/// An update leaves the number of profiles as it is.
pub proof fn lemma_update_keeps_len(config: AppConfigView, server: ServerView)
    ensures
        config.updated(server).servers.len() == config.servers.len(),
{
    if config.has_id(server.id) {
        let at = first_with_id(config, server.id);
    }
}

/// The least place that holds the identifier `id`, which exists.
proof fn first_with_id(config: AppConfigView, id: Seq<char>) -> (at: int)
    requires
        config.has_id(id),
    ensures
        config.is_position(id, at),
        config.position(id) == at,
{
    let some = choose|i: int| 0 <= i < config.servers.len() && (#[trigger] config.servers[i]).id
        == id;
    let at = least_with_id(config.servers, id, some);
    lemma_position(config, id, at);
    at
}

proof fn least_with_id(servers: Seq<ServerView>, id: Seq<char>, upper: int) -> (at: int)
    requires
        0 <= upper < servers.len(),
        servers[upper].id == id,
    ensures
        0 <= at <= upper,
        servers[at].id == id,
        forall|j: int| 0 <= j < at ==> (#[trigger] servers[j]).id != id,
    decreases upper,
{
    if exists|j: int| 0 <= j < upper && (#[trigger] servers[j]).id == id {
        let lower = choose|j: int| 0 <= j < upper && (#[trigger] servers[j]).id == id;
        least_with_id(servers, id, lower)
    } else {
        upper
    }
}

/// An addition makes the catalog longer by one profile, which is current;
/// a valid catalog stays valid where the new identifier was not in it.
pub proof fn lemma_add(config: AppConfigView, server: ServerView)
    ensures
        config.added(server).servers.len() == config.servers.len() + 1,
        config.added(server).servers.last() == server,
        config.added(server).current_server_id == Some(server.id),
        config.valid() && !config.has_id(server.id) ==> config.added(server).valid(),
{
    let after = config.added(server);
    if config.valid() && !config.has_id(server.id) {
        assert forall|i: int, j: int| 0 <= i < j < after.servers.len() implies (
        #[trigger] after.servers[i]).id != (#[trigger] after.servers[j]).id by {
            assert(after.servers[i] == config.servers[i]);
            if j < config.servers.len() {
                assert(after.servers[j] == config.servers[j]);
            }
        }
        assert(after.servers[after.servers.len() - 1].id == server.id);
    }
}

/// A directory that the host looks up for the user.
#[derive(Clone, Copy, Debug, PartialEq, Eq, Structural)]
pub enum BaseDir {
    /// The platform's directory for configuration files.
    Config,
    /// The user's home directory.
    Home,
}

/// Where the catalog is kept, as a mathematical record.
pub struct ConfigLocationView {
    pub base: BaseDir,
    pub fallback: Seq<char>,
    pub segments: Seq<Seq<char>>,
    pub file: Seq<char>,
}

/// Where the catalog is kept: the file `file` in the directory reached by
/// going down `segments` from `base`, or from `fallback` where the host
/// cannot tell `base`.
#[derive(Debug, PartialEq, Eq)]
pub struct ConfigLocation {
    pub base: BaseDir,
    pub fallback: String,
    pub segments: Vec<String>,
    pub file: String,
}

impl View for ConfigLocation {
    type V = ConfigLocationView;

    open spec fn view(&self) -> ConfigLocationView {
        ConfigLocationView {
            base: self.base,
            fallback: self.fallback@,
            segments: texts(self.segments@),
            file: self.file@,
        }
    }
}

/// The directory of the catalog on a platform: on macOS under the home
/// directory's `Library/Application Support`, elsewhere right under the
/// platform's configuration directory.
pub open spec fn spec_config_dir(platform: Platform) -> ConfigLocationView {
    ConfigLocationView {
        base: if platform == Platform::MacOS {
            BaseDir::Home
        } else {
            BaseDir::Config
        },
        fallback: "."@,
        segments: if platform == Platform::MacOS {
            seq!["Library"@, "Application Support"@, "ECHWorkersClient"@]
        } else {
            seq!["ECHWorkersClient"@]
        },
        file: "config.json"@,
    }
}

/// Tells where the catalog is kept on a platform.
pub fn get_config_dir(platform: Platform) -> (location: ConfigLocation)
    ensures
        location@ == spec_config_dir(platform),
{
    let mut segments: Vec<String> = Vec::new();
    let base = match platform {
        Platform::MacOS => {
            let library = "Library".to_owned();
            let support = "Application Support".to_owned();
            proof {
                lemma_texts_push(segments@, library);
                lemma_texts_push(segments@.push(library), support);
            }
            segments.push(library);
            segments.push(support);
            BaseDir::Home
        },
        _ => BaseDir::Config,
    };
    let client = "ECHWorkersClient".to_owned();
    proof {
        lemma_texts_push(segments@, client);
    }
    segments.push(client);
    assert(texts(segments@) =~= spec_config_dir(platform).segments);
    ConfigLocation { base, fallback: ".".to_owned(), segments, file: "config.json".to_owned() }
}

} // verus!

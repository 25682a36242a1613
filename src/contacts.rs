//! Contacts: the grouped contact list of the main view, and the paged
//! contact list that loads more rows as it is scrolled.
use vstd::prelude::*;

verus! {

/// A contact: a name and a one-line description.
pub struct ChatContact {
    pub name: String,
    pub description: String,
}

impl View for ChatContact {
    type V = (Seq<char>, Seq<char>);

    open spec fn view(&self) -> (Seq<char>, Seq<char>) {
        (self.name@, self.description@)
    }
}

impl ChatContact {
    pub fn new(name: String, description: String) -> (r: Self)
        ensures
            r.name@ == name@,
            r.description@ == description@,
    {
        ChatContact { name, description }
    }
}

/// A titled group of contacts.
pub struct ContactGroup {
    pub title: String,
    pub contacts: Vec<ChatContact>,
}

impl View for ContactGroup {
    type V = (Seq<char>, Seq<(Seq<char>, Seq<char>)>);

    open spec fn view(&self) -> (Seq<char>, Seq<(Seq<char>, Seq<char>)>) {
        (self.title@, self.contacts@.map_values(|c: ChatContact| c@))
    }
}

/// The contact groups that the main view starts with.
pub open spec fn initial_groups() -> Seq<(Seq<char>, Seq<(Seq<char>, Seq<char>)>)> {
    seq![
        ("Hello world"@, seq![("Hello"@, "Hello. The new Street"@), ("World"@, "World. Any where"@)]),
        ("Tom&Jerry"@, seq![("Tom"@, "Tom Cat. LP Street"@), ("Jerry"@, "Jerry Mouse. LP Street Hole"@)]),
    ]
}

fn contact(name: &str, description: &str) -> (r: ChatContact)
    ensures
        r@ == (name@, description@),
{
    ChatContact::new(String::from_str(name), String::from_str(description))
}

fn group(title: &str, first: ChatContact, second: ChatContact) -> (r: ContactGroup)
    ensures
        r@ == (title@, seq![first@, second@]),
{
    let mut contacts: Vec<ChatContact> = Vec::new();
    contacts.push(first);
    contacts.push(second);
    let r = ContactGroup { title: String::from_str(title), contacts };
    assert(r@.1 =~= seq![first@, second@]);
    r
}

/// The state of the main view: its name, whether its side panel is
/// collapsed, and its contact groups.
pub struct MainView {
    name: String,
    collapsed: bool,
    contacts: Vec<ContactGroup>,
}

impl MainView {
    pub closed spec fn spec_name(&self) -> Seq<char> {
        self.name@
    }

    pub closed spec fn spec_collapsed(&self) -> bool {
        self.collapsed
    }

    pub closed spec fn spec_groups(&self) -> Seq<(Seq<char>, Seq<(Seq<char>, Seq<char>)>)> {
        self.contacts@.map_values(|g: ContactGroup| g@)
    }

    /// A main view with an empty name, its panel open, and the initial groups.
    pub fn new() -> (r: Self)
        ensures
            r.spec_name() == Seq::<char>::empty(),
            !r.spec_collapsed(),
            r.spec_groups() == initial_groups(),
    {
        let mut contacts: Vec<ContactGroup> = Vec::new();
        contacts.push(
            group(
                "Hello world",
                contact("Hello", "Hello. The new Street"),
                contact("World", "World. Any where"),
            ),
        );
        contacts.push(
            group(
                "Tom&Jerry",
                contact("Tom", "Tom Cat. LP Street"),
                contact("Jerry", "Jerry Mouse. LP Street Hole"),
            ),
        );
        let r = MainView { name: String::new(), collapsed: false, contacts };
        assert(r.spec_groups() =~= initial_groups());
        r
    }

    /// The view's name.
    pub fn name(&self) -> (r: &String)
        ensures
            r@ == self.spec_name(),
    {
        &self.name
    }

    /// Whether the side panel is collapsed.
    pub fn collapsed(&self) -> (r: bool)
        ensures
            r == self.spec_collapsed(),
    {
        self.collapsed
    }

    /// The contact groups, in order.
    pub fn groups(&self) -> (r: &Vec<ContactGroup>)
        ensures
            r@.map_values(|g: ContactGroup| g@) == self.spec_groups(),
    {
        &self.contacts
    }
}

/// What the paged list asks of its host after a scroll.
#[derive(Clone, Copy, Debug, PartialEq, Eq, Structural)]
pub enum LoadAction {
    /// Nothing to do.
    Idle,
    /// Fetch the next page, then hand it to `ContactPager::finish_load`.
    Fetch,
}

/// What a paged list holds: the rows loaded so far, whether a load is in
/// flight, how close to the end a scroll must come to ask for more, and how
/// many rows there are to load in all.
pub struct PagerModel {
    pub rows: Seq<(Seq<char>, Seq<char>)>,
    pub loading: bool,
    pub threshold: nat,
    pub limit: nat,
}

impl PagerModel {
    /// All rows there are have been loaded.
    pub open spec fn is_eof(self) -> bool {
        self.rows.len() >= self.limit
    }

    /// A scroll that shows rows up to `visible_end` asks for the next page:
    /// no load is in flight, rows remain, and at most `threshold` loaded rows
    /// lie beyond `visible_end`.
    pub open spec fn wants_more(self, visible_end: int) -> bool {
        &&& !self.loading
        &&& !self.is_eof()
        &&& visible_end + self.threshold >= self.rows.len()
    }
}

/// A contact list that loads its rows a page at a time, when the view is
/// scrolled close to the last loaded row. The host performs the fetch (and its
/// latency) and hands the page back.
pub struct ContactPager {
    contacts: Vec<ChatContact>,
    loading: bool,
    threshold: usize,
    limit: usize,
}

impl View for ContactPager {
    type V = PagerModel;

    closed spec fn view(&self) -> PagerModel {
        PagerModel {
            rows: self.contacts@.map_values(|c: ChatContact| c@),
            loading: self.loading,
            threshold: self.threshold as nat,
            limit: self.limit as nat,
        }
    }
}

impl ContactPager {
    /// An empty list that asks for more when a scroll comes within
    /// `threshold` rows of its end, and holds `limit` rows once complete.
    pub fn new(threshold: usize, limit: usize) -> (r: Self)
        ensures
            r@ == (PagerModel { rows: Seq::empty(), loading: false, threshold: threshold as nat, limit: limit as nat }),
    {
        let r = ContactPager { contacts: Vec::new(), loading: false, threshold, limit };
        assert(r@.rows =~= Seq::empty());
        r
    }

    /// The number of rows loaded.
    pub fn len(&self) -> (r: usize)
        ensures
            r == self@.rows.len(),
    {
        self.contacts.len()
    }

    /// Loaded row `k`.
    pub fn row(&self, k: usize) -> (r: &ChatContact)
        requires
            k < self@.rows.len(),
        ensures
            r@ == self@.rows[k as int],
    {
        &self.contacts[k]
    }

    /// Whether a load is in flight.
    pub fn is_loading(&self) -> (r: bool)
        ensures
            r == self@.loading,
    {
        self.loading
    }

    /// Whether all rows have been loaded.
    pub fn is_eof(&self) -> (r: bool)
        ensures
            r == self@.is_eof(),
    {
        self.contacts.len() >= self.limit
    }

    /// Whether a scroll that shows rows up to `visible_end` asks for more.
    pub fn needs_more(&self, visible_end: usize) -> (r: bool)
        ensures
            r == self@.wants_more(visible_end as int),
    {
        let n = self.contacts.len();
        !self.loading && n < self.limit && (visible_end >= n || n - visible_end <= self.threshold)
    }

    /// The view was scrolled to show rows up to `visible_end`. Where that asks
    /// for more, a load starts and the host is told to fetch.
    pub fn on_scroll(&mut self, visible_end: usize) -> (r: LoadAction)
        ensures
            old(self)@.wants_more(visible_end as int) ==> r == LoadAction::Fetch && final(self)@ == (PagerModel { loading: true, ..old(self)@ }),
            !old(self)@.wants_more(visible_end as int) ==> r == LoadAction::Idle && final(self)@ == old(self)@,
    {
        if self.needs_more(visible_end) {
            self.loading = true;
            LoadAction::Fetch
        } else {
            LoadAction::Idle
        }
    }

    /// A fetched page arrived: its rows follow the loaded ones and the load
    /// is over.
    pub fn finish_load(&mut self, batch: Vec<ChatContact>)
        ensures
            final(self)@ == (PagerModel { rows: old(self)@.rows + batch@.map_values(|c: ChatContact| c@), loading: false, ..old(self)@ }),
    {
        let mut batch = batch;
        let ghost before = self.contacts@;
        let ghost page = batch@;
        self.contacts.append(&mut batch);
        self.loading = false;
        assert(self.contacts@.map_values(|c: ChatContact| c@) =~= before.map_values(|c: ChatContact| c@) + page.map_values(|c: ChatContact| c@));
    }
}

} // verus!

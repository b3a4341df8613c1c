//! The registry of installations: which installation delivers where.

use crate::codec::{records_from, records_in, registry_doc, registry_value};
use crate::json::{doc_of, error_message, json_text, parse_value, parsed, value_text};
use vstd::prelude::*;

verus! {

/// What an installation needs to have messages posted into its thread.
#[derive(Debug, PartialEq, Eq)]
pub struct TwistOnConfigure {
    pub install_id: String,
    pub post_data_url: String,
    pub user_id: String,
    pub user_name: String,
}

/// A configuration as a mathematical value.
pub struct ConfigureView {
    pub install_id: Seq<char>,
    pub post_data_url: Seq<char>,
    pub user_id: Seq<char>,
    pub user_name: Seq<char>,
}

impl View for TwistOnConfigure {
    type V = ConfigureView;

    open spec fn view(&self) -> ConfigureView {
        ConfigureView {
            install_id: self.install_id@,
            post_data_url: self.post_data_url@,
            user_id: self.user_id@,
            user_name: self.user_name@,
        }
    }
}

impl Clone for TwistOnConfigure {
    fn clone(&self) -> (copy: Self)
        ensures
            copy@ == self@,
    {
        TwistOnConfigure {
            install_id: self.install_id.clone(),
            post_data_url: self.post_data_url.clone(),
            user_id: self.user_id.clone(),
            user_name: self.user_name.clone(),
        }
    }
}

/// One installation: the secret that identifies it and its configuration.
#[derive(Debug, PartialEq, Eq)]
pub struct TwistIntegration {
    pub secret_id: String,
    pub configuration: TwistOnConfigure,
}

/// A record as a mathematical value.
pub struct IntegrationView {
    pub secret_id: Seq<char>,
    pub configuration: ConfigureView,
}

impl View for TwistIntegration {
    type V = IntegrationView;

    open spec fn view(&self) -> IntegrationView {
        IntegrationView { secret_id: self.secret_id@, configuration: self.configuration@ }
    }
}

impl Clone for TwistIntegration {
    fn clone(&self) -> (copy: Self)
        ensures
            copy@ == self@,
    {
        TwistIntegration {
            secret_id: self.secret_id.clone(),
            configuration: self.configuration.clone(),
        }
    }
}

/// The record under which a configuration is registered: its key is the
/// configuration's installation id.
pub open spec fn record_of(configuration: ConfigureView) -> IntegrationView {
    IntegrationView { secret_id: configuration.install_id, configuration }
}

/// The records after one more configuration was registered: the new record
/// comes last, whatever the registry held before.
pub open spec fn registered(records: Seq<IntegrationView>, configuration: ConfigureView) -> Seq<
    IntegrationView,
> {
    records.push(record_of(configuration))
}

/// The position of the first record with the given secret, or the number of
/// records where there is none.
pub open spec fn first_index(records: Seq<IntegrationView>, secret_id: Seq<char>) -> int
    decreases records.len(),
{
    if records.len() == 0 || records.first().secret_id == secret_id {
        0
    } else {
        1 + first_index(records.drop_first(), secret_id)
    }
}

/// The first record with the given secret, in insertion order.
pub open spec fn found(records: Seq<IntegrationView>, secret_id: Seq<char>) -> Option<
    IntegrationView,
> {
    let at = first_index(records, secret_id);
    if at < records.len() {
        Some(records[at])
    } else {
        None
    }
}

/// The records without the first one that has the given secret; all of them
/// where none has it.
pub open spec fn unregistered(records: Seq<IntegrationView>, secret_id: Seq<char>) -> Seq<
    IntegrationView,
> {
    let at = first_index(records, secret_id);
    if at < records.len() {
        records.remove(at)
    } else {
        records
    }
}

/// `first_index` is within bounds, no record before it has the secret, and
/// the record at it has, where there is one.
pub proof fn lemma_first_index(records: Seq<IntegrationView>, secret_id: Seq<char>)
    ensures
        0 <= first_index(records, secret_id) <= records.len(),
        forall|i: int|
            0 <= i < first_index(records, secret_id) ==> (#[trigger] records[i]).secret_id
                != secret_id,
        first_index(records, secret_id) < records.len() ==> records[first_index(
            records,
            secret_id,
        )].secret_id == secret_id,
    decreases records.len(),
{
    if records.len() == 0 || records.first().secret_id == secret_id {
    } else {
        let rest = records.drop_first();
        lemma_first_index(rest, secret_id);
        assert forall|i: int| 0 <= i < first_index(records, secret_id) implies (
        #[trigger] records[i]).secret_id != secret_id by {
            if i > 0 {
                assert(records[i] == rest[i - 1]);
            }
        }
    }
}

/// A position that no matching record precedes, and that holds a matching
/// record or is the end, is the `first_index`.
pub proof fn lemma_first_index_is(records: Seq<IntegrationView>, secret_id: Seq<char>, at: int)
    requires
        0 <= at <= records.len(),
        forall|i: int| 0 <= i < at ==> (#[trigger] records[i]).secret_id != secret_id,
        at < records.len() ==> records[at].secret_id == secret_id,
    ensures
        first_index(records, secret_id) == at,
    decreases records.len(),
{
    if records.len() == 0 {
    } else if records.first().secret_id == secret_id {
        if at > 0 {
            assert(records[0].secret_id != secret_id);
        }
    } else {
        let rest = records.drop_first();
        assert forall|i: int| 0 <= i < at - 1 implies (#[trigger] rest[i]).secret_id
            != secret_id by {
            assert(rest[i] == records[i + 1]);
        }
        lemma_first_index_is(rest, secret_id, at - 1);
    }
}

/// The registry: the records in insertion order, and the path of the file
/// that mirrors them.
pub struct FileStore {
    path: String,
    twist_integrations: Vec<TwistIntegration>,
}

/// A registry as a mathematical value.
pub struct StoreView {
    pub path: Seq<char>,
    pub records: Seq<IntegrationView>,
}

/// The views of a run of records, one for one.
pub open spec fn views_of(records: Seq<TwistIntegration>) -> Seq<IntegrationView> {
    records.map_values(|record: TwistIntegration| record@)
}

impl View for FileStore {
    type V = StoreView;

    closed spec fn view(&self) -> StoreView {
        StoreView { path: self.path@, records: views_of(self.twist_integrations@) }
    }
}

impl FileStore {
    /// An empty registry that is to be mirrored at `path`.
    pub fn new(path: &str) -> (store: Self)
        ensures
            store@.path == path@,
            store@.records == Seq::<IntegrationView>::empty(),
    {
        let store = FileStore { path: path.to_owned(), twist_integrations: Vec::new() };
        assert(views_of(store.twist_integrations@) =~= Seq::<IntegrationView>::empty());
        store
    }

    /// The path of the file that mirrors the registry.
    pub fn path(&self) -> (path: &str)
        ensures
            path@ == self@.path,
    {
        self.path.as_str()
    }

    /// The number of records.
    pub fn len(&self) -> (count: usize)
        ensures
            count == self@.records.len(),
    {
        self.twist_integrations.len()
    }

    /// The record at a position, in insertion order.
    pub fn get(&self, at: usize) -> (record: Option<&TwistIntegration>)
        ensures
            match record {
                Some(record) => at < self@.records.len() && record@ == self@.records[at as int],
                None => at >= self@.records.len(),
            },
    {
        if at < self.twist_integrations.len() {
            Some(&self.twist_integrations[at])
        } else {
            None
        }
    }

    /// The position of the first record with the given secret.
    fn position(&self, secret_id: &String) -> (at: usize)
        ensures
            at == first_index(self@.records, secret_id@),
    {
        let mut at: usize = 0;
        while at < self.twist_integrations.len()
            invariant
                at <= self.twist_integrations.len(),
                forall|i: int|
                    0 <= i < at ==> (#[trigger] self@.records[i]).secret_id != secret_id@,
            decreases self.twist_integrations.len() - at,
        {
            if self.twist_integrations[at].secret_id == *secret_id {
                proof {
                    lemma_first_index_is(self@.records, secret_id@, at as int);
                }
                return at;
            }
            at += 1;
        }
        proof {
            lemma_first_index_is(self@.records, secret_id@, at as int);
        }
        at
    }

    /// Looks an installation up by its secret: the first record that has it,
    /// in insertion order. The registry is left as it is.
    pub fn find_twist_thread(&self, secret_id: String) -> (record: Option<TwistIntegration>)
        ensures
            match found(self@.records, secret_id@) {
                Some(view) => record matches Some(r) && r@ == view,
                None => record is None,
            },
    {
        let at = self.position(&secret_id);
        if at < self.twist_integrations.len() {
            Some(self.twist_integrations[at].clone())
        } else {
            None
        }
    }

    /// The whole registry as a JSON document.
    pub fn snapshot(&self) -> (value: serde_json::Value)
        ensures
            doc_of(value) == registry_doc(self@.records),
    {
        registry_value(&self.twist_integrations)
    }

    /// The text that is to be written to the mirror file: the whole registry
    /// as one JSON array.
    pub fn save(&self) -> (text: String)
        ensures
            text@ == persisted(self@.records),
    {
        let value = self.snapshot();
        value_text(&value)
    }

    /// Takes the records from a JSON document. Where the document is not an
    /// array of records, the registry stays as it is.
    pub fn restore(&mut self, value: &serde_json::Value) -> (outcome: Result<(), LoadError>)
        ensures
            final(self)@.path == old(self)@.path,
            match records_in(doc_of(*value)) {
                Some(records) => outcome is Ok && final(self)@.records == records,
                None => {
                    &&& outcome matches Err(error) && error@ == LoadErrorView::Shape
                    &&& final(self)@.records == old(self)@.records
                },
            },
    {
        match records_from(value) {
            Some(records) => {
                self.twist_integrations = records;
                Ok(())
            },
            None => Err(LoadError::Shape),
        }
    }

    /// Takes the records from what the mirror file held at startup. No file
    /// means an empty registry. A file that does not hold a registry is an
    /// error, and the registry stays as it is.
    pub fn load(&mut self, stored: Option<&str>) -> (outcome: Result<(), LoadError>)
        ensures
            final(self)@.path == old(self)@.path,
            match loaded(optional_view(stored)) {
                Ok(records) => outcome is Ok && final(self)@.records == records,
                Err(view) => {
                    &&& outcome matches Err(error) && error@ == view
                    &&& final(self)@.records == old(self)@.records
                },
            },
    {
        match stored {
            None => {
                self.twist_integrations = Vec::new();
                assert(views_of(self.twist_integrations@) =~= Seq::<IntegrationView>::empty());
                Ok(())
            },
            Some(text) => match parse_value(text) {
                Ok(value) => self.restore(&value),
                Err(error) => Err(LoadError::Syntax(error_message(&error))),
            },
        }
    }

    /// Registers an installation under its installation id. The record is
    /// appended, whatever the registry holds already. Returns the text to
    /// write to the mirror file.
    pub fn register_twist_thread(&mut self, cfg: TwistOnConfigure) -> (text: String)
        ensures
            final(self)@.path == old(self)@.path,
            final(self)@.records == registered(old(self)@.records, cfg@),
            text@ == persisted(final(self)@.records),
    {
        let record = TwistIntegration { secret_id: cfg.install_id.clone(), configuration: cfg };
        self.twist_integrations.push(record);
        assert(views_of(self.twist_integrations@) =~= registered(
            views_of(old(self).twist_integrations@),
            cfg@,
        ));
        self.save()
    }

    /// Removes the first record with the given installation id. Returns the
    /// text to write to the mirror file, or nothing where no record had the
    /// id: the registry is then as it was and nothing is to be written.
    pub fn unregister_twist_thread(&mut self, install_id: String) -> (text: Option<String>)
        ensures
            final(self)@.path == old(self)@.path,
            final(self)@.records == unregistered(old(self)@.records, install_id@),
            match found(old(self)@.records, install_id@) {
                Some(_) => text matches Some(t) && t@ == persisted(final(self)@.records),
                None => text is None && final(self)@.records == old(self)@.records,
            },
    {
        let at = self.position(&install_id);
        if at < self.twist_integrations.len() {
            self.twist_integrations.remove(at);
            assert(views_of(self.twist_integrations@) =~= views_of(
                old(self).twist_integrations@,
            ).remove(at as int));
            Some(self.save())
        } else {
            None
        }
    }
}

/// The text under which a registry is persisted.
pub open spec fn persisted(records: Seq<IntegrationView>) -> Seq<char> {
    json_text(registry_doc(records))
}

/// The view of a stored text that may be missing.
pub open spec fn optional_view(stored: Option<&str>) -> Option<Seq<char>> {
    match stored {
        Some(text) => Some(text@),
        None => None,
    }
}

/// Why stored data could not be taken as a registry.
#[derive(Debug, PartialEq, Eq)]
pub enum LoadError {
    /// The data is not JSON; the parser's message says why.
    Syntax(String),
    /// The data is JSON, but not an array of records.
    Shape,
}

/// A load error as a mathematical value.
pub enum LoadErrorView {
    Syntax(Seq<char>),
    Shape,
}

impl View for LoadError {
    type V = LoadErrorView;

    open spec fn view(&self) -> LoadErrorView {
        match self {
            LoadError::Syntax(message) => LoadErrorView::Syntax(message@),
            LoadError::Shape => LoadErrorView::Shape,
        }
    }
}

/// What a stored text is taken for: no text is an empty registry, a text must
/// be JSON and an array of records.
pub open spec fn loaded(stored: Option<Seq<char>>) -> Result<Seq<IntegrationView>, LoadErrorView> {
    match stored {
        None => Ok(Seq::empty()),
        Some(text) => match parsed(text) {
            Ok(doc) => match records_in(doc) {
                Some(records) => Ok(records),
                None => Err(LoadErrorView::Shape),
            },
            Err(message) => Err(LoadErrorView::Syntax(message)),
        },
    }
}


/// A secret is found if and only if some record has it.
pub proof fn lemma_found_iff_held(records: Seq<IntegrationView>, secret_id: Seq<char>)
    ensures
        found(records, secret_id) is None <==> forall|i: int|
            0 <= i < records.len() ==> (#[trigger] records[i]).secret_id != secret_id,
        found(records, secret_id) matches Some(record) ==> record.secret_id == secret_id,
{
    lemma_first_index(records, secret_id);
}

/// Two configurations with different installation ids, registered one after
/// the other into a registry that holds neither id, are each found under
/// their own id.
pub proof fn lemma_registered_are_found(
    records: Seq<IntegrationView>,
    first: ConfigureView,
    second: ConfigureView,
)
    requires
        first.install_id != second.install_id,
        found(records, first.install_id) is None,
        found(records, second.install_id) is None,
    ensures
        found(registered(registered(records, first), second), first.install_id) == Some(
            record_of(first),
        ),
        found(registered(registered(records, first), second), second.install_id) == Some(
            record_of(second),
        ),
{
    let both = registered(registered(records, first), second);
    lemma_found_iff_held(records, first.install_id);
    lemma_found_iff_held(records, second.install_id);
    lemma_first_index_is(both, first.install_id, records.len() as int);
    lemma_first_index_is(both, second.install_id, records.len() as int + 1);
}

/// An id that was never registered is not found: nothing is found in an empty
/// registry, and registering one id does not make another one found.
pub proof fn lemma_unregistered_is_not_found(
    records: Seq<IntegrationView>,
    configuration: ConfigureView,
    secret_id: Seq<char>,
)
    ensures
        found(Seq::<IntegrationView>::empty(), secret_id) is None,
        found(records, secret_id) is None && configuration.install_id != secret_id ==> found(
            registered(records, configuration),
            secret_id,
        ) is None,
{
    lemma_found_iff_held(records, secret_id);
    lemma_found_iff_held(registered(records, configuration), secret_id);
}

/// Registering an id that the registry does not hold and unregistering it
/// again gives the registry as it was, in which the id is not found.
pub proof fn lemma_register_then_unregister(
    records: Seq<IntegrationView>,
    configuration: ConfigureView,
)
    requires
        found(records, configuration.install_id) is None,
    ensures
        unregistered(registered(records, configuration), configuration.install_id) == records,
        found(
            unregistered(registered(records, configuration), configuration.install_id),
            configuration.install_id,
        ) is None,
{
    let more = registered(records, configuration);
    lemma_found_iff_held(records, configuration.install_id);
    lemma_first_index_is(more, configuration.install_id, records.len() as int);
    assert(more.remove(records.len() as int) =~= records);
}

/// Unregistering an id that no record has changes nothing.
pub proof fn lemma_unregister_unknown(records: Seq<IntegrationView>, secret_id: Seq<char>)
    requires
        found(records, secret_id) is None,
    ensures
        unregistered(records, secret_id) == records,
{
}

/// No two records have the same secret.
pub open spec fn unique_secrets(records: Seq<IntegrationView>) -> bool {
    forall|i: int, j: int|
        0 <= i < j < records.len() ==> (#[trigger] records[i]).secret_id != (
        #[trigger] records[j]).secret_id
}

/// A registry holds each secret at most once for as long as no id is
/// registered that it holds already: registering a new id and unregistering
/// any id keep it so.
pub proof fn lemma_secrets_stay_unique(
    records: Seq<IntegrationView>,
    configuration: ConfigureView,
    secret_id: Seq<char>,
)
    requires
        unique_secrets(records),
    ensures
        unique_secrets(Seq::<IntegrationView>::empty()),
        found(records, configuration.install_id) is None ==> unique_secrets(
            registered(records, configuration),
        ),
        unique_secrets(unregistered(records, secret_id)),
        found(unregistered(records, secret_id), secret_id) is None,
{
    lemma_found_iff_held(records, configuration.install_id);
    lemma_first_index(records, secret_id);
    let fewer = unregistered(records, secret_id);
    let at = first_index(records, secret_id);
    assert forall|i: int| 0 <= i < fewer.len() implies (#[trigger] fewer[i]).secret_id
        != secret_id by {
        if at < records.len() {
            if i < at {
                assert(fewer[i] == records[i]);
            } else {
                assert(fewer[i] == records[i + 1]);
            }
        }
    }
    lemma_found_iff_held(fewer, secret_id);
    assert forall|i: int, j: int| 0 <= i < j < fewer.len() implies (#[trigger] fewer[i]).secret_id
        != (#[trigger] fewer[j]).secret_id by {
        if at < records.len() {
            let before = if i < at { i } else { i + 1 };
            let after = if j < at { j } else { j + 1 };
            assert(fewer[i] == records[before]);
            assert(fewer[j] == records[after]);
        }
    }
}

/// The records after a run of registrations, made one at a time in the order
/// of `configurations`.
pub open spec fn registered_all(
    records: Seq<IntegrationView>,
    configurations: Seq<ConfigureView>,
) -> Seq<IntegrationView>
    decreases configurations.len(),
{
    if configurations.len() == 0 {
        records
    } else {
        registered(registered_all(records, configurations.drop_last()), configurations.last())
    }
}

/// No registration is lost. In whatever order registrations with distinct
/// ids, none of them held before, take their turn at the registry, the
/// registry afterwards holds what it held, followed by one record for each of
/// them, and each is found under its id.
pub proof fn lemma_no_registration_is_lost(
    records: Seq<IntegrationView>,
    configurations: Seq<ConfigureView>,
)
    requires
        forall|i: int, j: int|
            0 <= i < j < configurations.len() ==> (#[trigger] configurations[i]).install_id != (
            #[trigger] configurations[j]).install_id,
        forall|i: int|
            0 <= i < configurations.len() ==> found(
                records,
                (#[trigger] configurations[i]).install_id,
            ) is None,
    ensures
        registered_all(records, configurations) == records + configurations.map_values(
            |configuration: ConfigureView| record_of(configuration),
        ),
        registered_all(records, configurations).len() == records.len() + configurations.len(),
        forall|i: int|
            0 <= i < configurations.len() ==> found(
                registered_all(records, configurations),
                (#[trigger] configurations[i]).install_id,
            ) == Some(record_of(configurations[i])),
    decreases configurations.len(),
{
    let all = registered_all(records, configurations);
    let added = configurations.map_values(|configuration: ConfigureView| record_of(configuration));
    if configurations.len() == 0 {
        assert(all =~= records + added);
    } else {
        let before = configurations.drop_last();
        lemma_no_registration_is_lost(records, before);
        assert(all =~= records + added);
    }
    assert forall|i: int| 0 <= i < configurations.len() implies found(
        all,
        (#[trigger] configurations[i]).install_id,
    ) == Some(record_of(configurations[i])) by {
        let secret_id = configurations[i].install_id;
        lemma_found_iff_held(records, secret_id);
        assert forall|k: int| 0 <= k < records.len() + i implies (#[trigger] all[k]).secret_id
            != secret_id by {
            if k >= records.len() {
                assert(all[k] == record_of(configurations[k - records.len()]));
            }
        }
        lemma_first_index_is(all, secret_id, records.len() as int + i);
    }
}

} // verus!

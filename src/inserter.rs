use vstd::prelude::*;

use clickhouse::Client;

verus! {

#[verifier::external_type_specification]
#[verifier::external_body]
pub struct ExClient(Client);

/// Relies on `clickhouse::Client::default`, `with_url`, `with_database`,
/// `with_user` and `with_password`: a fresh client with default settings,
/// given the HTTP endpoint, the database and user-and-password credentials.
/// `with_user` and `with_password` panic only on a client given an access
/// token, which a fresh client never has.
#[verifier::external_body]
fn credential_client(url: &str, database: &str, user: &str, password: &str) -> Client {
    Client::default().with_url(url).with_database(database).with_user(user).with_password(password)
}

/// Relies on `clickhouse::Client::with_setting`: adds a session setting.
#[verifier::external_body]
fn client_with_setting(c: Client, name: &str, value: &str) -> Client {
    c.with_setting(name, value)
}

/// The format tag of the load statement.
pub open spec fn format_tag(has_header: bool) -> Seq<char> {
    if has_header {
        "CSVWithNames"@
    } else {
        "CSV"@
    }
}

/// The column names separated by `, `.
pub open spec fn column_list(fs: Seq<Seq<char>>) -> Seq<char>
    decreases fs.len(),
{
    if fs.len() == 0 {
        Seq::empty()
    } else if fs.len() == 1 {
        fs[0]
    } else {
        column_list(fs.drop_last()) + ", "@ + fs.last()
    }
}

/// `INSERT INTO <table> [(<columns>)] FORMAT <tag>`, with the column list
/// only where fields were chosen.
pub open spec fn insert_statement(table: Seq<char>, fields: Option<Seq<Seq<char>>>, has_header: bool) -> Seq<char> {
    match fields {
        Some(fs) => "INSERT INTO "@ + table + " ("@ + column_list(fs) + ") FORMAT "@ + format_tag(has_header),
        None => "INSERT INTO "@ + table + " FORMAT "@ + format_tag(has_header),
    }
}

pub open spec fn fields_view(fields: Option<Vec<String>>) -> Option<Seq<Seq<char>>> {
    match fields {
        Some(v) => Some(v.deep_view()),
        None => None,
    }
}

/// The column names of `fields`, separated by `, `.
pub fn join_columns(fields: &Vec<String>) -> (r: String)
    ensures
        r@ == column_list(fields.deep_view()),
{
    let ghost fs = fields.deep_view();
    let mut r = String::new();
    let mut i: usize = 0;
    while i < fields.len()
        invariant
            i <= fields.len(),
            fs == fields.deep_view(),
            r@ == column_list(fs.take(i as int)),
        decreases fields.len() - i,
    {
        assert(fs.take(i + 1).drop_last() =~= fs.take(i as int));
        assert(fs.take(i + 1).last() == fields[i as int]@);
        if i == 0 {
            r = r.concat(fields[i].as_str());
            assert(r@ =~= column_list(fs.take(1)));
        } else {
            r = r.concat(", ").concat(fields[i].as_str());
        }
        i = i + 1;
    }
    assert(fs.take(fields.len() as int) =~= fs);
    r
}

/// Loads whole CSV files into one table of the target store.
pub struct ClickHouseInserter {
    client: Client,
    url: String,
    database: String,
    user: String,
    password: String,
    async_insert: bool,
    table: String,
    fields: Option<Vec<String>>,
    has_header: bool,
}

impl ClickHouseInserter {
    /// The HTTP endpoint that the session was given.
    pub closed spec fn url(&self) -> Seq<char> {
        self.url@
    }

    /// The database that the session was given.
    pub closed spec fn database(&self) -> Seq<char> {
        self.database@
    }

    /// The user name that the session was given.
    pub closed spec fn user(&self) -> Seq<char> {
        self.user@
    }

    /// The password that the session was given.
    pub closed spec fn password(&self) -> Seq<char> {
        self.password@
    }

    /// Whether the session was given `async_insert=1` and
    /// `wait_for_async_insert=1`.
    pub closed spec fn batches_on_server(&self) -> bool {
        self.async_insert
    }

    /// The load statement that this inserter submits.
    pub closed spec fn statement(&self) -> Seq<char> {
        insert_statement(self.table@, fields_view(self.fields), self.has_header)
    }

    /// An inserter that connects to `url` as `user`, loads into `table` of
    /// `database`, names `fields` where given, and reads a header row where
    /// `has_header`. With `async_insert` the session asks the store to batch
    /// inserts on its side and to wait for each batch.
    pub fn new(
        url: &str,
        database: &str,
        user: &str,
        password: &str,
        table: String,
        fields: Option<Vec<String>>,
        has_header: bool,
        async_insert: bool,
    ) -> (r: Self)
        ensures
            r.statement() == insert_statement(table@, fields_view(fields), has_header),
            r.url() == url@,
            r.database() == database@,
            r.user() == user@,
            r.password() == password@,
            r.batches_on_server() == async_insert,
    {
        let mut client = credential_client(url, database, user, password);
        if async_insert {
            client = client_with_setting(client, "async_insert", "1");
            client = client_with_setting(client, "wait_for_async_insert", "1");
        }
        ClickHouseInserter {
            client,
            url: String::from_str(url),
            database: String::from_str(database),
            user: String::from_str(user),
            password: String::from_str(password),
            async_insert,
            table,
            fields,
            has_header,
        }
    }

    /// The session through which loads are submitted.
    pub fn client(&self) -> &Client {
        &self.client
    }

    /// The load statement: `INSERT INTO <table> [(<columns>)] FORMAT <tag>`,
    /// with `CSVWithNames` where files carry a header row and `CSV` where not.
    pub fn insert_query(&self) -> (r: String)
        ensures
            r@ == self.statement(),
    {
        let tag = if self.has_header {
            "CSVWithNames"
        } else {
            "CSV"
        };
        let head = String::from_str("INSERT INTO ").concat(self.table.as_str());
        let r = match &self.fields {
            Some(fs) => {
                let cols = join_columns(fs);
                head.concat(" (").concat(cols.as_str()).concat(") FORMAT ").concat(tag)
            },
            None => head.concat(" FORMAT ").concat(tag),
        };
        assert(r@ =~= self.statement());
        r
    }
}

} // verus!

//! The first commit of a table: its protocol and its metadata.
use std::sync::Arc;

use delta_kernel::arrow::datatypes::Schema;
use delta_kernel::engine::arrow_data::ArrowEngineData;
use url::Url;
use vstd::prelude::*;
use vstd::utf8::*;

use crate::arrow;
use crate::arrow::Column;
use crate::columns;
use crate::error::{ErrorKind, SimpleError};
use crate::kernel;
use crate::location;
use crate::model;
use crate::model::{Cell, SchemaModel, Table, TypeModel};
use crate::schema;
use crate::schema::SimpleField;
use crate::text;
use crate::text::KernelStringSlice;

verus! {

/// Protocol metadata required to create an initial log entry.
///
/// An array of strings may be absent when its length is 0.
pub struct ProtocolActionSimple {
    pub min_reader_version: i32,
    pub min_writer_version: i32,
    pub reader_features: Option<Vec<KernelStringSlice>>,
    pub reader_features_len: usize,
    pub writer_features: Option<Vec<KernelStringSlice>>,
    pub writer_features_len: usize,
}

/// Table metadata required to create an initial log entry.
///
/// An array of strings may be absent when its length is 0.
pub struct MetadataActionSimple {
    /// A string that ended at a null byte.
    pub id: Vec<u8>,
    /// A string that ended at a null byte.
    pub name: Option<Vec<u8>>,
    /// A string that ended at a null byte.
    pub description: Option<Vec<u8>>,
    pub partition_columns: Option<Vec<KernelStringSlice>>,
    pub partition_columns_len: usize,
    pub configuration_keys: Option<Vec<KernelStringSlice>>,
    pub configuration_values: Option<Vec<KernelStringSlice>>,
    pub configuration_len: usize,
    pub created_time: Option<i64>,
    /// A string that ended at a null byte. Defaults to `parquet` when absent.
    pub format_provider: Option<Vec<u8>>,
}

/// The list of the features, or null where there are none.
pub open spec fn features_cell(features: Seq<Seq<char>>) -> Cell {
    if features.len() == 0 {
        Cell::Null
    } else {
        Cell::Items(model::text_cells(features))
    }
}

/// The text, or null where there is none.
pub open spec fn optional_text_cell(text: Option<Seq<char>>) -> Cell {
    match text {
        Some(text) => Cell::Text(text),
        None => Cell::Null,
    }
}

/// The types of the columns of a log entry.
pub open spec fn log_types() -> Seq<TypeModel> {
    seq![
        TypeModel::StructOf(schema::protocol_model()),
        TypeModel::StructOf(schema::metadata_model()),
    ]
}

/// The log entry with the given protocol and metadata, under the given schema.
pub open spec fn log_entry(schema: SchemaModel, protocol: Cell, metadata: Cell) -> Result<
    Table,
    ErrorKind,
> {
    let cells = seq![protocol, metadata];
    if model::columns_match(schema.fields, log_types(), model::one_row_columns(cells), 1) {
        Ok(model::one_row(schema, cells))
    } else {
        Err(ErrorKind::Arrow)
    }
}

impl ProtocolActionSimple {
    /// Whether the arrays of the action are there in full.
    pub open spec fn complete(self) -> bool {
        &&& text::strings_complete(self.reader_features, self.reader_features_len)
        &&& text::strings_complete(self.writer_features, self.writer_features_len)
    }

    /// Whether the action is small enough for Arrow columns.
    pub open spec fn small(self) -> bool {
        &&& text::strings_small(self.reader_features, self.reader_features_len)
        &&& text::strings_small(self.writer_features, self.writer_features_len)
    }

    /// Whether the action is there in full and, unless it is refused, small enough for Arrow
    /// columns.
    pub open spec fn fits(self) -> bool {
        self.complete() && (self.cell() is Ok ==> self.small())
    }

    /// The struct value of the action.
    pub open spec fn cell(self) -> Result<Cell, ErrorKind> {
        match text::strings_text(self.reader_features, self.reader_features_len) {
            Err(e) => Err(e),
            Ok(readers) => match text::strings_text(
                self.writer_features,
                self.writer_features_len,
            ) {
                Err(e) => Err(e),
                Ok(writers) => Ok(
                    Cell::Record(
                        seq![
                            Cell::Int32(self.min_reader_version),
                            Cell::Int32(self.min_writer_version),
                            features_cell(readers),
                            features_cell(writers),
                        ],
                    ),
                ),
            },
        }
    }

    /// The log entry of the action, under the given schema.
    pub open spec fn table(self, schema: SchemaModel) -> Result<Table, ErrorKind> {
        match self.cell() {
            Err(e) => Err(e),
            Ok(cell) => log_entry(schema, cell, Cell::Null),
        }
    }
}

impl MetadataActionSimple {
    /// Whether the arrays of the action are there in full.
    pub open spec fn complete(self) -> bool {
        &&& text::strings_complete(self.partition_columns, self.partition_columns_len)
        &&& text::strings_complete(self.configuration_keys, self.configuration_len)
        &&& text::strings_complete(self.configuration_values, self.configuration_len)
    }

    /// Whether the action is small enough for Arrow columns.
    pub open spec fn small(self) -> bool {
        &&& self.id@.len() <= i32::MAX
        &&& text::optional_c_string_small(self.name)
        &&& text::optional_c_string_small(self.description)
        &&& text::optional_c_string_small(self.format_provider)
        &&& text::strings_small(self.partition_columns, self.partition_columns_len)
        &&& text::strings_small(self.configuration_keys, self.configuration_len)
        &&& text::strings_small(self.configuration_values, self.configuration_len)
    }

    /// Whether the action is there in full and, unless it is refused, small enough for Arrow
    /// columns.
    pub open spec fn fits(self) -> bool {
        self.complete() && (self.failure() is None ==> self.small())
    }

    /// The struct value of the action's file format, for the given text of its provider.
    pub open spec fn format_cell(provider: Seq<char>) -> Cell {
        Cell::Record(
            seq![
                Cell::Text(provider),
                Cell::Entries(Seq::<(Seq<char>, Seq<char>)>::empty()),
            ],
        )
    }

    /// The first error among the action's strings, in the order in which they are read.
    pub open spec fn failure(self) -> Option<ErrorKind> {
        let partition_columns = text::strings_text(
            self.partition_columns,
            self.partition_columns_len,
        );
        let keys = text::strings_text(self.configuration_keys, self.configuration_len);
        let values = text::strings_text(self.configuration_values, self.configuration_len);
        if let Err(e) = text::c_string_text(self.id@) {
            Some(e)
        } else if let Err(e) = text::optional_c_string_text(self.name) {
            Some(e)
        } else if let Err(e) = text::optional_c_string_text(self.description) {
            Some(e)
        } else if let Err(e) = text::optional_c_string_text(self.format_provider) {
            Some(e)
        } else if let Err(e) = partition_columns {
            Some(e)
        } else if let Err(e) = keys {
            Some(e)
        } else if let Err(e) = values {
            Some(e)
        } else {
            None
        }
    }

    /// The struct value of the action, for the given JSON text of the table's schema.
    pub open spec fn cell(self, schema_json: Seq<char>) -> Result<Cell, ErrorKind> {
        match self.failure() {
            Some(e) => Err(e),
            None => Ok(
                Cell::Record(
                    seq![
                        Cell::Text(text::c_string_text(self.id@)->Ok_0),
                        optional_text_cell(text::optional_c_string_text(self.name)->Ok_0),
                        optional_text_cell(text::optional_c_string_text(self.description)->Ok_0),
                        Self::format_cell(
                            model::or_default(
                                text::optional_c_string_text(self.format_provider)->Ok_0,
                                "parquet"@,
                            ),
                        ),
                        Cell::Text(schema_json),
                        Cell::Items(
                            model::text_cells(
                                text::strings_text(
                                    self.partition_columns,
                                    self.partition_columns_len,
                                )->Ok_0,
                            ),
                        ),
                        match self.created_time {
                            Some(time) => Cell::Int64(time),
                            None => Cell::Null,
                        },
                        Cell::Entries(
                            text::strings_text(
                                self.configuration_keys,
                                self.configuration_len,
                            )->Ok_0.zip_with(
                                text::strings_text(
                                    self.configuration_values,
                                    self.configuration_len,
                                )->Ok_0,
                            ),
                        ),
                    ],
                ),
            ),
        }
    }

    /// The log entry of the action, for the given JSON text of the table's schema, under the
    /// given schema.
    pub open spec fn table(self, schema: SchemaModel, schema_json: Seq<char>) -> Result<
        Table,
        ErrorKind,
    > {
        match self.cell(schema_json) {
            Err(e) => Err(e),
            Ok(cell) => log_entry(schema, Cell::Null, cell),
        }
    }
}

/// The log entry of a protocol and a metadata column of one row each.
fn log_batch(log_schema: Arc<Schema>, protocol: Column, metadata: Column) -> (result: Result<
    ArrowEngineData,
    SimpleError,
>)
    requires
        arrow::column_type(protocol) == log_types()[0],
        arrow::column_type(metadata) == log_types()[1],
        arrow::column_cells(protocol).len() == 1,
        arrow::column_cells(metadata).len() == 1,
    ensures
        match result {
            Ok(batch) => log_entry(
                arrow::schema_model(*log_schema),
                arrow::column_cells(protocol)[0],
                arrow::column_cells(metadata)[0],
            ) == Ok::<Table, ErrorKind>(arrow::batch_table(batch)),
            Err(e) => log_entry(
                arrow::schema_model(*log_schema),
                arrow::column_cells(protocol)[0],
                arrow::column_cells(metadata)[0],
            ) == Err::<Table, ErrorKind>(e@),
        },
{
    let ghost cells = seq![arrow::column_cells(protocol)[0], arrow::column_cells(metadata)[0]];
    let children = vec![protocol, metadata];
    assert(arrow::column_types(children@) =~= log_types());
    assert(arrow::columns_cells(children@)[0] =~= model::one_row_columns(cells)[0]);
    assert(arrow::columns_cells(children@)[1] =~= model::one_row_columns(cells)[1]);
    assert(arrow::columns_cells(children@) =~= model::one_row_columns(cells));
    match arrow::new_batch(log_schema, children) {
        Ok(batch) => Ok(batch),
        Err(e) => Err(SimpleError::Arrow(e)),
    }
}

/// Copies the features, if there are any.
fn read_features(features: &Option<Vec<KernelStringSlice>>, len: usize) -> (result: Result<
    Option<Vec<String>>,
    SimpleError,
>)
    requires
        text::strings_complete(*features, len),
    ensures
        match result {
            Ok(None) => text::strings_text(*features, len) == Ok::<Seq<Seq<char>>, ErrorKind>(
                Seq::empty(),
            ),
            Ok(Some(strings)) => {
                &&& text::strings_text(*features, len) == Ok::<Seq<Seq<char>>, ErrorKind>(
                    model::texts(strings@),
                )
                &&& strings@.len() > 0
            },
            Err(e) => text::strings_text(*features, len) == Err::<Seq<Seq<char>>, ErrorKind>(e@),
        },
{
    match text::slices_to_strings(features, len) {
        Ok(strings) => {
            if strings.len() == 0 {
                assert(model::texts(strings@) =~= Seq::<Seq<char>>::empty());
                Ok(None)
            } else {
                Ok(Some(strings))
            }
        },
        Err(e) => Err(e),
    }
}

impl ProtocolActionSimple {
    /// Why the action is refused, if it is.
    fn refusal(&self) -> (refusal: Option<SimpleError>)
        requires
            self.complete(),
        ensures
            match refusal {
                Some(e) => self.cell() == Err::<Cell, ErrorKind>(e@),
                None => self.cell() is Ok,
            },
    {
        match read_features(&self.reader_features, self.reader_features_len) {
            Err(e) => Some(e),
            Ok(_) => match read_features(&self.writer_features, self.writer_features_len) {
                Err(e) => Some(e),
                Ok(_) => None,
            },
        }
    }

    /// Whether the action is there in full and, unless it is refused, small enough for Arrow
    /// columns.
    pub fn check_fits(&self) -> (fits: bool)
        ensures
            fits == self.fits(),
    {
        if !text::check_strings_complete(&self.reader_features, self.reader_features_len)
            || !text::check_strings_complete(&self.writer_features, self.writer_features_len) {
            return false;
        }
        let small = text::check_strings_small(&self.reader_features, self.reader_features_len)
            && text::check_strings_small(&self.writer_features, self.writer_features_len);
        small || self.refusal().is_some()
    }
}

/// The log entry that sets the table's protocol.
pub fn build_protocol_action(log_schema: Arc<Schema>, action: &ProtocolActionSimple) -> (result:
    Result<ArrowEngineData, SimpleError>)
    requires
        action.fits(),
    ensures
        match result {
            Ok(batch) => action.table(arrow::schema_model(*log_schema)) == Ok::<Table, ErrorKind>(
                arrow::batch_table(batch),
            ),
            Err(e) => action.table(arrow::schema_model(*log_schema)) == Err::<Table, ErrorKind>(
                e@,
            ),
        },
{
    let reader_features = match read_features(
        &action.reader_features,
        action.reader_features_len,
    ) {
        Ok(features) => features,
        Err(e) => {
            return Err(e);
        },
    };
    let writer_features = match read_features(
        &action.writer_features,
        action.writer_features_len,
    ) {
        Ok(features) => features,
        Err(e) => {
            return Err(e);
        },
    };
    let ghost cell = action.cell()->Ok_0;
    proof {
        text::lemma_strings_small(
            action.reader_features,
            action.reader_features_len,
            text::strings_text(action.reader_features, action.reader_features_len)->Ok_0,
        );
        text::lemma_strings_small(
            action.writer_features,
            action.writer_features_len,
            text::strings_text(action.writer_features, action.writer_features_len)->Ok_0,
        );
    }
    let readers = match columns::nullable_string_list(reader_features) {
        Ok(column) => column,
        Err(e) => {
            return Err(e);
        },
    };
    let writers = match columns::nullable_string_list(writer_features) {
        Ok(column) => column,
        Err(e) => {
            return Err(e);
        },
    };
    let children = vec![
        columns::one_int32_column(action.min_reader_version),
        columns::one_int32_column(action.min_writer_version),
        readers,
        writers,
    ];
    proof {
        arrow::lemma_one_row(schema::protocol_model(), children@, cell->Record_0);
    }
    let protocol_struct = match arrow::struct_column(schema::protocol_fields(), children, 1) {
        Ok(column) => column,
        Err(e) => {
            return Err(SimpleError::Arrow(e));
        },
    };
    proof {
        schema::lemma_known_types();
    }
    let metadata_struct = arrow::null_struct_column(schema::metadata_fields(), 1);
    assert(arrow::column_cells(protocol_struct) =~= seq![cell]);
    assert(arrow::column_cells(metadata_struct) =~= seq![Cell::Null]);
    log_batch(log_schema, protocol_struct, metadata_struct)
}

/// The text of a small string is small.
proof fn lemma_optional_c_string_small(bytes: Option<Vec<u8>>)
    requires
        text::optional_c_string_small(bytes),
        bytes matches Some(bytes) ==> valid_utf8(bytes@),
    ensures
        bytes matches Some(bytes) ==> encode_utf8(decode_utf8(bytes@)).len() <= i32::MAX,
{
    if let Some(bytes) = bytes {
        decode_utf8_encode_utf8(bytes@);
    }
}

/// The text `parquet` takes few bytes.
proof fn lemma_parquet_fits()
    ensures
        encode_utf8("parquet"@).len() <= i32::MAX,
{
    reveal_strlit("parquet");
    assert(is_ascii_chars("parquet"@));
    is_ascii_chars_encode_utf8("parquet"@);
}

/// A column with one struct value for the file format with the given provider.
fn format_column(format_provider: Option<String>) -> (result: Result<Column, SimpleError>)
    requires
        format_provider matches Some(provider) ==> encode_utf8(provider@).len() <= i32::MAX,
    ensures
        result is Ok,
        result matches Ok(column) ==> {
            &&& arrow::column_type(column) == TypeModel::StructOf(schema::format_model())
            &&& arrow::column_cells(column) == seq![
                MetadataActionSimple::format_cell(
                    match format_provider {
                        Some(provider) => provider@,
                        None => "parquet"@,
                    },
                ),
            ]
        },
{
    let provider = match format_provider {
        Some(provider) => provider,
        None => {
            proof {
                lemma_parquet_fits();
            }
            "parquet".to_string()
        },
    };
    let ghost provider_view = provider@;
    let no_options: Vec<(String, String)> = Vec::new();
    proof {
        assert(columns::pair_keys(no_options@) =~= Seq::<Seq<char>>::empty());
        assert(columns::pair_values(no_options@) =~= Seq::<Seq<char>>::empty());
        assert(columns::pair_texts(no_options@) =~= Seq::<(Seq<char>, Seq<char>)>::empty());
    }
    let options = match columns::string_map_array(&no_options, false) {
        Ok(column) => column,
        Err(e) => {
            return Err(e);
        },
    };
    let children = vec![columns::one_text_column(provider), options];
    proof {
        arrow::lemma_one_row(
            schema::format_model(),
            children@,
            MetadataActionSimple::format_cell(provider_view)->Record_0,
        );
    }
    match arrow::struct_column(schema::format_fields(), children, 1) {
        Ok(column) => Ok(column),
        Err(e) => Err(SimpleError::Arrow(e)),
    }
}

/// Pairs keys with the values at the same places.
fn zip_pairs(keys: Vec<String>, values: Vec<String>) -> (pairs: Vec<(String, String)>)
    requires
        keys@.len() == values@.len(),
    ensures
        columns::pair_keys(pairs@) == model::texts(keys@),
        columns::pair_values(pairs@) == model::texts(values@),
        columns::pair_texts(pairs@) == model::texts(keys@).zip_with(model::texts(values@)),
{
    let mut pairs: Vec<(String, String)> = Vec::new();
    for i in 0..keys.len()
        invariant
            keys@.len() == values@.len(),
            pairs@.len() == i,
            forall|j: int|
                0 <= j < i ==> (#[trigger] pairs@[j]).0@ == keys@[j]@ && pairs@[j].1@
                    == values@[j]@,
    {
        pairs.push((keys[i].clone(), values[i].clone()));
    }
    assert(columns::pair_keys(pairs@) =~= model::texts(keys@));
    assert(columns::pair_values(pairs@) =~= model::texts(values@));
    assert(columns::pair_texts(pairs@) =~= model::texts(keys@).zip_with(model::texts(values@)));
    pairs
}

/// The strings of a metadata action.
struct MetadataTexts {
    id: String,
    name: Option<String>,
    description: Option<String>,
    format_provider: Option<String>,
    partition_columns: Vec<String>,
    configuration: Vec<(String, String)>,
}

/// The text of an optional string.
spec fn optional_view(string: Option<String>) -> Option<Seq<char>> {
    match string {
        Some(string) => Some(string@),
        None => None,
    }
}

impl MetadataTexts {
    /// Whether these are the strings of the action.
    spec fn are_of(self, action: MetadataActionSimple) -> bool {
        &&& action.failure() is None
        &&& text::c_string_text(action.id@) == Ok::<Seq<char>, ErrorKind>(self.id@)
        &&& text::optional_c_string_text(action.name) == Ok::<Option<Seq<char>>, ErrorKind>(
            optional_view(self.name),
        )
        &&& text::optional_c_string_text(action.description) == Ok::<
            Option<Seq<char>>,
            ErrorKind,
        >(optional_view(self.description))
        &&& text::optional_c_string_text(action.format_provider) == Ok::<
            Option<Seq<char>>,
            ErrorKind,
        >(optional_view(self.format_provider))
        &&& text::strings_text(action.partition_columns, action.partition_columns_len) == Ok::<
            Seq<Seq<char>>,
            ErrorKind,
        >(model::texts(self.partition_columns@))
        &&& text::strings_text(action.configuration_keys, action.configuration_len) == Ok::<
            Seq<Seq<char>>,
            ErrorKind,
        >(columns::pair_keys(self.configuration@))
        &&& text::strings_text(action.configuration_values, action.configuration_len) == Ok::<
            Seq<Seq<char>>,
            ErrorKind,
        >(columns::pair_values(self.configuration@))
    }
}

impl MetadataActionSimple {
    /// Copies the strings of the action.
    fn read(&self) -> (result: Result<MetadataTexts, SimpleError>)
        requires
            self.complete(),
        ensures
            match result {
                Ok(texts) => texts.are_of(*self),
                Err(e) => self.failure() == Some(e@),
            },
    {
        let id = match text::cloned_c_str(&self.id) {
            Ok(id) => id,
            Err(e) => {
                return Err(e);
            },
        };
        let name = match text::optional_c_string(&self.name) {
            Ok(name) => name,
            Err(e) => {
                return Err(e);
            },
        };
        let description = match text::optional_c_string(&self.description) {
            Ok(description) => description,
            Err(e) => {
                return Err(e);
            },
        };
        let format_provider = match text::optional_c_string(&self.format_provider) {
            Ok(provider) => provider,
            Err(e) => {
                return Err(e);
            },
        };
        let partition_columns = match text::slices_to_strings(
            &self.partition_columns,
            self.partition_columns_len,
        ) {
            Ok(strings) => strings,
            Err(e) => {
                return Err(e);
            },
        };
        let keys = match text::slices_to_strings(&self.configuration_keys, self.configuration_len) {
            Ok(keys) => keys,
            Err(e) => {
                return Err(e);
            },
        };
        let values = match text::slices_to_strings(
            &self.configuration_values,
            self.configuration_len,
        ) {
            Ok(values) => values,
            Err(e) => {
                return Err(e);
            },
        };
        assert(model::texts(keys@).len() == self.configuration_len);
        assert(model::texts(values@).len() == self.configuration_len);
        if keys.len() != values.len() {
            return Err(SimpleError::ConfigurationLengths);
        }
        let configuration = zip_pairs(keys, values);
        Ok(
            MetadataTexts {
                id,
                name,
                description,
                format_provider,
                partition_columns,
                configuration,
            },
        )
    }

    /// Why the action is refused, if it is.
    fn refusal(&self) -> (refusal: Option<SimpleError>)
        requires
            self.complete(),
        ensures
            match refusal {
                Some(e) => self.failure() == Some(e@),
                None => self.failure() is None,
            },
    {
        match self.read() {
            Ok(_) => None,
            Err(e) => Some(e),
        }
    }

    /// Whether the action is there in full and, unless it is refused, small enough for Arrow
    /// columns.
    pub fn check_fits(&self) -> (fits: bool)
        ensures
            fits == self.fits(),
    {
        if !text::check_strings_complete(&self.partition_columns, self.partition_columns_len)
            || !text::check_strings_complete(&self.configuration_keys, self.configuration_len)
            || !text::check_strings_complete(&self.configuration_values, self.configuration_len) {
            return false;
        }
        let small = self.id.len() <= i32::MAX as usize && text::check_optional_c_string_small(
            &self.name,
        ) && text::check_optional_c_string_small(&self.description)
            && text::check_optional_c_string_small(&self.format_provider)
            && text::check_strings_small(&self.partition_columns, self.partition_columns_len)
            && text::check_strings_small(&self.configuration_keys, self.configuration_len)
            && text::check_strings_small(&self.configuration_values, self.configuration_len);
        small || self.refusal().is_some()
    }
}

/// The log entry that sets the table's metadata, with the given JSON text of the table's schema.
pub fn build_metadata_action(
    log_schema: Arc<Schema>,
    action: &MetadataActionSimple,
    schema_json: &str,
) -> (result: Result<ArrowEngineData, SimpleError>)
    requires
        action.fits(),
        action.failure() is None ==> encode_utf8(schema_json@).len() <= i32::MAX,
    ensures
        match result {
            Ok(batch) => action.table(arrow::schema_model(*log_schema), schema_json@) == Ok::<
                Table,
                ErrorKind,
            >(arrow::batch_table(batch)),
            Err(e) => action.table(arrow::schema_model(*log_schema), schema_json@) == Err::<
                Table,
                ErrorKind,
            >(e@),
        },
{
    let texts = match action.read() {
        Ok(texts) => texts,
        Err(e) => {
            return Err(e);
        },
    };
    let ghost cell = action.cell(schema_json@)->Ok_0;
    proof {
        decode_utf8_encode_utf8(action.id@);
        lemma_optional_c_string_small(action.name);
        lemma_optional_c_string_small(action.description);
        lemma_optional_c_string_small(action.format_provider);
        text::lemma_strings_small(
            action.partition_columns,
            action.partition_columns_len,
            model::texts(texts.partition_columns@),
        );
        let pairs = texts.configuration@;
        text::lemma_strings_small(
            action.configuration_keys,
            action.configuration_len,
            columns::pair_keys(pairs),
        );
        text::lemma_strings_small(
            action.configuration_values,
            action.configuration_len,
            columns::pair_values(pairs),
        );
        assert(columns::pair_keys(pairs).len() == pairs.len());
        assert(columns::pair_texts(pairs) =~= columns::pair_keys(pairs).zip_with(
            columns::pair_values(pairs),
        ));
    }
    let id = columns::one_text_column(texts.id);
    let name = columns::one_optional_text_column(&texts.name);
    let description = columns::one_optional_text_column(&texts.description);
    let format_struct = match format_column(texts.format_provider) {
        Ok(column) => column,
        Err(e) => {
            return Err(e);
        },
    };
    let schema_string = columns::one_text_column(schema_json.to_string());
    let partition_columns = match columns::non_null_string_list(&texts.partition_columns) {
        Ok(column) => column,
        Err(e) => {
            return Err(e);
        },
    };
    let created_time = columns::one_optional_int64_column(action.created_time);
    let configuration = match columns::string_map_array(&texts.configuration, false) {
        Ok(column) => column,
        Err(e) => {
            return Err(e);
        },
    };
    let children = vec![
        id,
        name,
        description,
        format_struct,
        schema_string,
        partition_columns,
        created_time,
        configuration,
    ];
    proof {
        arrow::lemma_one_row(schema::metadata_model(), children@, cell->Record_0);
    }
    let metadata_struct = match arrow::struct_column(schema::metadata_fields(), children, 1) {
        Ok(column) => column,
        Err(e) => {
            return Err(SimpleError::Arrow(e));
        },
    };
    proof {
        schema::lemma_known_types();
    }
    let protocol_struct = arrow::null_struct_column(schema::protocol_fields(), 1);
    assert(arrow::column_cells(metadata_struct) =~= seq![cell]);
    assert(arrow::column_cells(protocol_struct) =~= seq![Cell::Null]);
    log_batch(log_schema, protocol_struct, metadata_struct)
}

/// The first commit of a table: where it goes, and its log entries in order.
pub struct InitialCommit {
    pub commit_path: Url,
    pub actions: Vec<ArrowEngineData>,
}

/// The text of a commit's URL and its log entries.
pub ghost struct CommitModel {
    pub path: Seq<char>,
    pub actions: Seq<Table>,
}

impl CommitModel {
    /// The JSON text of the table's schema, in the metadata.
    pub open spec fn schema_json(self) -> Cell {
        self.actions[1].columns[1][0]->Record_0[4]
    }
}

impl View for InitialCommit {
    type V = CommitModel;

    open spec fn view(&self) -> CommitModel {
        CommitModel {
            path: location::url_text(self.commit_path),
            actions: self.actions@.map_values(|b: ArrowEngineData| arrow::batch_table(b)),
        }
    }
}

/// The log entries of a new table, the protocol before the metadata, for the given JSON text of
/// its schema.
pub open spec fn initial_tables(
    schema_json: Seq<char>,
    protocol: ProtocolActionSimple,
    metadata: MetadataActionSimple,
) -> Result<Seq<Table>, ErrorKind> {
    match protocol.table(schema::log_schema_model()) {
        Err(e) => Err(e),
        Ok(protocol) => match metadata.table(schema::log_schema_model(), schema_json) {
            Err(e) => Err(e),
            Ok(metadata) => Ok(seq![protocol, metadata]),
        },
    }
}

/// The first commit of a table, for the text of its root. There is none where nothing but size
/// stands in the way: that of the actions, or of the schema's JSON text.
pub open spec fn initial_commit(
    root: Seq<char>,
    fields: Option<Vec<SimpleField>>,
    fields_len: usize,
    protocol: ProtocolActionSimple,
    metadata: MetadataActionSimple,
) -> Option<Result<CommitModel, ErrorKind>> {
    match location::commit_text(root) {
        Err(e) => Some(Err(e)),
        Ok(path) => match schema::table_fields(fields, fields_len) {
            Err(e) => Some(Err(e)),
            Ok(columns) => {
                let json = kernel::schema_json(columns);
                match initial_tables(json, protocol, metadata) {
                    Err(e) => Some(Err(e)),
                    Ok(actions) => if encode_utf8(json).len() <= i32::MAX && protocol.small()
                        && metadata.small() {
                        Some(Ok(CommitModel { path, actions }))
                    } else {
                        None
                    },
                }
            },
        },
    }
}

/// The log entries of a new table, the protocol before the metadata, for the given JSON text of
/// its schema.
pub fn initial_actions(
    schema_json: &str,
    protocol: &ProtocolActionSimple,
    metadata: &MetadataActionSimple,
) -> (result: Result<Vec<ArrowEngineData>, SimpleError>)
    requires
        protocol.fits(),
        metadata.fits(),
        metadata.failure() is None ==> encode_utf8(schema_json@).len() <= i32::MAX,
    ensures
        match result {
            Ok(actions) => initial_tables(schema_json@, *protocol, *metadata) == Ok::<
                Seq<Table>,
                ErrorKind,
            >(actions@.map_values(|b: ArrowEngineData| arrow::batch_table(b))),
            Err(e) => initial_tables(schema_json@, *protocol, *metadata) == Err::<
                Seq<Table>,
                ErrorKind,
            >(e@),
        },
{
    let log_schema = schema::log_schema();
    let protocol_action = match build_protocol_action(log_schema.clone(), protocol) {
        Ok(action) => action,
        Err(e) => {
            return Err(e);
        },
    };
    let metadata_action = match build_metadata_action(log_schema, metadata, schema_json) {
        Ok(action) => action,
        Err(e) => {
            return Err(e);
        },
    };
    let actions = vec![protocol_action, metadata_action];
    assert(actions@.map_values(|b: ArrowEngineData| arrow::batch_table(b)) =~= seq![
        arrow::batch_table(protocol_action),
        arrow::batch_table(metadata_action),
    ]);
    Ok(actions)
}

/// A log entry under the log schema is never refused.
pub proof fn lemma_log_entry_accepts(protocol: Cell, metadata: Cell)
    ensures
        log_entry(schema::log_schema_model(), protocol, metadata) == Ok::<Table, ErrorKind>(
            model::one_row(schema::log_schema_model(), seq![protocol, metadata]),
        ),
{
    let columns = model::one_row_columns(seq![protocol, metadata]);
    assert(columns.len() == 2);
    assert(forall|i: int| 0 <= i < 2 ==> #[trigger] columns[i].len() == 1);
}

/// Works out the first commit of a table: its protocol and its metadata, for the caller to write
/// to the log.
///
/// There is none where the actions, or the JSON text of the table's schema, are larger than Arrow
/// columns can hold, and nothing else is wrong.
pub fn initialize_table_simple(
    table_root: &Url,
    fields: &Option<Vec<SimpleField>>,
    fields_len: usize,
    protocol: &ProtocolActionSimple,
    metadata: &MetadataActionSimple,
) -> (result: Option<Result<InitialCommit, SimpleError>>)
    requires
        fields matches Some(fields) ==> fields_len <= fields@.len(),
        protocol.complete(),
        metadata.complete(),
    ensures
        ({
            let expected = initial_commit(
                location::url_text(*table_root),
                *fields,
                fields_len,
                *protocol,
                *metadata,
            );
            match result {
                None => expected is None,
                Some(Ok(commit)) => expected == Some(Ok::<CommitModel, ErrorKind>(commit@)),
                Some(Err(e)) => expected == Some(Err::<CommitModel, ErrorKind>(e@)),
            }
        }),
        result matches Some(Ok(commit)) ==> {
            let base = location::url_parsed(
                location::slash_ended(location::url_text(*table_root)),
            )->Ok_0;
            location::is_directory(base) ==> commit@.path == base + location::commit_file()
        },
{
    let commit_path = match location::commit_url(table_root) {
        Ok(url) => url,
        Err(e) => {
            return Some(Err(e));
        },
    };
    let logical_schema = match schema::build_struct_type_from_simple_fields(fields, fields_len) {
        Ok(logical_schema) => logical_schema,
        Err(e) => {
            return Some(Err(e));
        },
    };
    proof {
        schema::lemma_table_fields_flat(*fields, fields_len);
    }
    let schema_json = match kernel::struct_type_to_json(&logical_schema) {
        Ok(json) => json,
        Err(e) => {
            return Some(Err(SimpleError::Json(e)));
        },
    };
    proof {
        lemma_log_entry_accepts(protocol.cell()->Ok_0, Cell::Null);
        lemma_log_entry_accepts(Cell::Null, metadata.cell(schema_json@)->Ok_0);
    }
    let short = schema_json.as_str().as_bytes().len() <= i32::MAX as usize;
    if short && protocol.check_fits() && metadata.check_fits() {
        match initial_actions(schema_json.as_str(), protocol, metadata) {
            Ok(actions) => Some(Ok(InitialCommit { commit_path, actions })),
            Err(e) => Some(Err(e)),
        }
    } else {
        match protocol.refusal() {
            Some(e) => Some(Err(e)),
            None => match metadata.refusal() {
                Some(e) => Some(Err(e)),
                None => None,
            },
        }
    }
}

} // verus!

//! The search criteria of the transaction-search endpoint, and the values
//! that travel to the store as bound parameters.

use vstd::prelude::*;

verus! {

/// A column of the transactions table that a search can be narrowed by.
/// The variants stand in canonical order.
#[derive(Clone, Copy, Debug, PartialEq, Eq, Structural)]
pub enum Column {
    TransHash,
    Sender,
    Receiver,
    Time,
}

impl Column {
    /// Position of the column in canonical order.
    pub open spec fn rank(self) -> nat {
        match self {
            Column::TransHash => 0,
            Column::Sender => 1,
            Column::Receiver => 2,
            Column::Time => 3,
        }
    }

    /// The column's name in the store's schema. The receiver column keeps the
    /// spelling that the table was created with.
    pub open spec fn name(self) -> Seq<char> {
        match self {
            Column::TransHash => "trans_hash"@,
            Column::Sender => "sender"@,
            Column::Receiver => "reciever"@,
            Column::Time => "time"@,
        }
    }

    /// The column's name as text.
    pub fn name_text(self) -> (text: &'static str)
        ensures
            text@ == self.name(),
    {
        match self {
            Column::TransHash => "trans_hash",
            Column::Sender => "sender",
            Column::Receiver => "reciever",
            Column::Time => "time",
        }
    }
}

/// A value bound to a placeholder, as a mathematical value.
pub enum BoundValue {
    Text(Seq<char>),
    Integer(i64),
}

/// A value bound to a placeholder.
#[derive(Debug, PartialEq, Eq)]
pub enum SqlValue {
    Text(String),
    Integer(i64),
}

impl View for SqlValue {
    type V = BoundValue;

    open spec fn view(&self) -> BoundValue {
        match *self {
            SqlValue::Text(text) => BoundValue::Text(text@),
            SqlValue::Integer(number) => BoundValue::Integer(number),
        }
    }
}

impl Clone for SqlValue {
    fn clone(&self) -> (copy: SqlValue)
        ensures
            copy == *self,
    {
        match self {
            SqlValue::Text(text) => SqlValue::Text(text.clone()),
            SqlValue::Integer(number) => SqlValue::Integer(*number),
        }
    }
}

/// The views of a list of bound values, in order.
pub open spec fn values_view(values: Seq<SqlValue>) -> Seq<BoundValue> {
    values.map_values(|value: SqlValue| value@)
}

/// A filter set as a mathematical value: each criterion present or absent.
pub struct FilterSet {
    pub trans_hash: Option<Seq<char>>,
    pub sender: Option<Seq<char>>,
    pub receiver: Option<Seq<char>>,
    pub time: Option<i64>,
}

impl FilterSet {
    /// The value that the filter set supplies for a column, if any.
    pub open spec fn value_of(self, column: Column) -> Option<BoundValue> {
        match column {
            Column::TransHash => text_value(self.trans_hash),
            Column::Sender => text_value(self.sender),
            Column::Receiver => text_value(self.receiver),
            Column::Time => match self.time {
                Some(time) => Some(BoundValue::Integer(time)),
                None => None,
            },
        }
    }

    /// Whether the filter set narrows the search by a column.
    pub open spec fn supplies(self, column: Column) -> bool {
        self.value_of(column) is Some
    }

    /// How many criteria are present.
    pub open spec fn supplied_count(self) -> nat {
        one_if(self.supplies(Column::TransHash)) + one_if(self.supplies(Column::Sender)) + one_if(
            self.supplies(Column::Receiver),
        ) + one_if(self.supplies(Column::Time))
    }

    /// How many criteria are supplied for columns that stand before the
    /// given one in canonical order.
    pub open spec fn supplied_before(self, column: Column) -> nat {
        match column {
            Column::TransHash => 0,
            Column::Sender => one_if(self.supplies(Column::TransHash)),
            Column::Receiver => one_if(self.supplies(Column::TransHash)) + one_if(
                self.supplies(Column::Sender),
            ),
            Column::Time => one_if(self.supplies(Column::TransHash)) + one_if(
                self.supplies(Column::Sender),
            ) + one_if(self.supplies(Column::Receiver)),
        }
    }

    /// Whether no criterion is present.
    pub open spec fn is_empty(self) -> bool {
        &&& self.trans_hash is None
        &&& self.sender is None
        &&& self.receiver is None
        &&& self.time is None
    }

    /// Whether two filter sets have the same criteria present, whatever
    /// their values.
    pub open spec fn same_shape(self, other: FilterSet) -> bool {
        &&& self.trans_hash is Some <==> other.trans_hash is Some
        &&& self.sender is Some <==> other.sender is Some
        &&& self.receiver is Some <==> other.receiver is Some
        &&& self.time is Some <==> other.time is Some
    }
}

pub open spec fn one_if(condition: bool) -> nat {
    if condition {
        1
    } else {
        0
    }
}

pub open spec fn text_value(text: Option<Seq<char>>) -> Option<BoundValue> {
    match text {
        Some(text) => Some(BoundValue::Text(text)),
        None => None,
    }
}

pub open spec fn text_view(text: Option<String>) -> Option<Seq<char>> {
    match text {
        Some(text) => Some(text@),
        None => None,
    }
}

/// The optional search criteria of one request. Each is independently present
/// or absent; an empty set matches every record.
#[derive(Debug, PartialEq, Eq)]
pub struct TransactionFilters {
    pub trans_hash: Option<String>,
    pub sender: Option<String>,
    pub receiver: Option<String>,
    pub time: Option<i64>,
}

impl View for TransactionFilters {
    type V = FilterSet;

    open spec fn view(&self) -> FilterSet {
        FilterSet {
            trans_hash: text_view(self.trans_hash),
            sender: text_view(self.sender),
            receiver: text_view(self.receiver),
            time: self.time,
        }
    }
}

impl TransactionFilters {
    /// The filter set with no criterion.
    pub fn empty() -> (filters: TransactionFilters)
        ensures
            filters@.is_empty(),
    {
        TransactionFilters { trans_hash: None, sender: None, receiver: None, time: None }
    }

    /// The value supplied for a column, if any.
    pub fn value_of(&self, column: Column) -> (value: Option<SqlValue>)
        ensures
            match value {
                Some(value) => self@.value_of(column) == Some(value@),
                None => self@.value_of(column) is None,
            },
    {
        match column {
            Column::TransHash => text_binding(&self.trans_hash),
            Column::Sender => text_binding(&self.sender),
            Column::Receiver => text_binding(&self.receiver),
            Column::Time => match self.time {
                Some(time) => Some(SqlValue::Integer(time)),
                None => None,
            },
        }
    }
}

fn text_binding(text: &Option<String>) -> (value: Option<SqlValue>)
    ensures
        match value {
            Some(value) => text_value(text_view(*text)) == Some(value@),
            None => *text is None,
        },
{
    match text {
        Some(text) => Some(SqlValue::Text(text.clone())),
        None => None,
    }
}

/// One recorded transaction, as the store returns it.
#[derive(Debug, PartialEq, Eq)]
pub struct Transaction {
    pub trans_hash: String,
    pub sender: String,
    pub reciever: String,
    pub amount: i64,
    pub time: Option<i64>,
}

} // verus!

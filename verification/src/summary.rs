//! The summary list: one flat row for each transaction of the document.

use crate::har::{Entry, Har};
use crate::locator::{parse_url, parsed_url, UrlParts, UrlPartsView};
use vstd::prelude::*;

verus! {

/// The row of the summary list for one transaction.
#[derive(Debug, Clone)]
pub struct TableItem {
    pub status: u16,
    pub method: String,
    pub domain: String,
    pub file_name: String,
    pub mime_type: String,
    pub size: Option<i64>,
}

/// The mathematical value of a [`TableItem`].
pub ghost struct TableItemView {
    pub status: u16,
    pub method: Seq<char>,
    pub domain: Seq<char>,
    pub file_name: Seq<char>,
    pub mime_type: Seq<char>,
    pub size: Option<i64>,
}

impl DeepView for TableItem {
    type V = TableItemView;

    open spec fn deep_view(&self) -> TableItemView {
        TableItemView {
            status: self.status,
            method: self.method@,
            domain: self.domain@,
            file_name: self.file_name@,
            mime_type: self.mime_type@,
            size: self.size,
        }
    }
}

/// The domain shown for a request URL: empty where the URL cannot be parsed
/// or names no domain.
pub open spec fn shown_domain(url: Option<UrlPartsView>) -> Seq<char> {
    match url {
        Some(UrlPartsView { domain: Some(domain), .. }) => domain,
        _ => Seq::empty(),
    }
}

/// The path shown for a request URL: empty where the URL cannot be parsed.
pub open spec fn shown_path(url: Option<UrlPartsView>) -> Seq<char> {
    match url {
        Some(parts) => parts.path,
        None => Seq::empty(),
    }
}

/// The row for `entry`, given what parsing its request URL produced. The
/// status is cut to 16 bits; a missing content type is shown as empty.
pub open spec fn summary_row(entry: Entry, url: Option<UrlPartsView>) -> TableItemView {
    TableItemView {
        status: entry.response.status as u16,
        method: entry.request.method@,
        domain: shown_domain(url),
        file_name: shown_path(url),
        mime_type: match entry.response.content.mime_type {
            Some(mime_type) => mime_type@,
            None => Seq::empty(),
        },
        size: entry.response.content.size,
    }
}

/// The row for `entry`.
pub open spec fn summary_of(entry: Entry) -> TableItemView {
    summary_row(entry, parsed_url(entry.request.url@))
}

/// Builds the row for `entry` from the parts of its request URL, `None`
/// standing for a URL that could not be parsed.
pub fn table_item(entry: &Entry, url: Option<UrlParts>) -> (item: TableItem)
    ensures
        item.deep_view() == summary_row(*entry, url.deep_view()),
{
    let (domain, file_name) = match url {
        Some(parts) => {
            let domain = match parts.domain {
                Some(domain) => domain,
                None => String::new(),
            };
            (domain, parts.path)
        },
        None => (String::new(), String::new()),
    };
    let mime_type = match &entry.response.content.mime_type {
        Some(mime_type) => mime_type.clone(),
        None => String::new(),
    };
    TableItem {
        status: entry.response.status as u16,
        method: entry.request.method.clone(),
        domain,
        file_name,
        mime_type,
        size: entry.response.content.size,
    }
}

impl Har {
    /// The summary list of the document: the row of each transaction, in the
    /// order of the transactions.
    pub open spec fn summaries(&self) -> Seq<TableItemView> {
        Seq::new(self.log.entries.len() as nat, |i: int| summary_of(self.log.entries[i]))
    }

    /// Projects the document into its summary list. A field that cannot be
    /// read off a transaction is left empty in its row; the rows of the
    /// other transactions are not affected.
    pub fn to_table_items(&self) -> (items: Vec<TableItem>)
        ensures
            items.deep_view() == self.summaries(),
            items.len() == self.log.entries.len(),
    {
        let mut items: Vec<TableItem> = Vec::new();
        let count = self.log.entries.len();
        let mut done: usize = 0;
        while done < count
            invariant
                count == self.log.entries.len(),
                done <= count,
                items.len() == done,
                forall|i: int|
                    0 <= i < done ==> (#[trigger] items[i]).deep_view() == summary_of(
                        self.log.entries[i],
                    ),
            decreases count - done,
        {
            let entry = &self.log.entries[done];
            let item = table_item(entry, parse_url(entry.request.url.as_str()));
            items.push(item);
            done = done + 1;
        }
        assert(items.deep_view() =~= self.summaries());
        items
    }
}

} // verus!

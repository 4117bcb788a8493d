//! Match records and the ordered collection that a search fills with them.

use vstd::prelude::*;

verus! {

/// What one match record stands for: the file it belongs to (absent until
/// the record has been stamped), its 1-based line number (`0` when the line
/// is unknown) and the bytes of the matched line.
pub struct RecordView {
    pub file_name: Option<Seq<char>>,
    pub line_number: int,
    pub matched_bytes: Seq<u8>,
}

/// One matched line.
#[derive(Debug)]
pub struct TestSearchResult {
    file_name: Option<String>,
    line_number: u64,
    matched_bytes: Vec<u8>,
}

impl View for TestSearchResult {
    type V = RecordView;

    closed spec fn view(&self) -> RecordView {
        RecordView {
            file_name: match self.file_name {
                Some(name) => Some(name@),
                None => None,
            },
            line_number: self.line_number as int,
            matched_bytes: self.matched_bytes@,
        }
    }
}

impl Clone for TestSearchResult {
    /// A record with the same file, line number and bytes.
    fn clone(&self) -> (copy: TestSearchResult)
        ensures
            copy@ == self@,
    {
        TestSearchResult {
            file_name: match &self.file_name {
                Some(name) => Some(name.clone()),
                None => None,
            },
            line_number: self.line_number,
            matched_bytes: self.matched_bytes.clone(),
        }
    }
}

/// The views of a sequence of records, in the same order.
pub open spec fn record_views(records: Seq<TestSearchResult>) -> Seq<RecordView> {
    records.map_values(|r: TestSearchResult| r@)
}

impl TestSearchResult {
    /// A record with exactly the given fields.
    pub fn new(file_name: Option<String>, line_number: u64, matched_bytes: Vec<u8>) -> (r:
        TestSearchResult)
        ensures
            r@ == (RecordView {
                file_name: match file_name {
                    Some(name) => Some(name@),
                    None => None,
                },
                line_number: line_number as int,
                matched_bytes: matched_bytes@,
            }),
    {
        TestSearchResult { file_name, line_number, matched_bytes }
    }

    /// The record's line number; `0` stands for an unknown line.
    pub fn get_line_number(&self) -> (n: u64)
        ensures
            n as int == self@.line_number,
    {
        self.line_number
    }

    /// The bytes of the matched line.
    pub fn get_matched_bytes(&self) -> (bytes: &Vec<u8>)
        ensures
            bytes@ == self@.matched_bytes,
    {
        &self.matched_bytes
    }

    /// The file that the record belongs to, if it has been stamped.
    pub fn get_file_name(&self) -> (name: &Option<String>)
        ensures
            match *name {
                Some(n) => self@.file_name == Some(n@),
                None => self@.file_name is None,
            },
    {
        &self.file_name
    }

    /// Replaces the owning file and leaves the other fields alone.
    pub fn set_file_name(&mut self, file_name: Option<String>)
        ensures
            final(self)@ == (RecordView {
                file_name: match file_name {
                    Some(name) => Some(name@),
                    None => None,
                },
                ..old(self)@
            }),
    {
        self.file_name = file_name;
    }
}

/// The records of one search session, in the order in which they were stored.
#[derive(Debug)]
pub struct TestSearchResults {
    results_store: Vec<TestSearchResult>,
}

impl View for TestSearchResults {
    type V = Seq<RecordView>;

    closed spec fn view(&self) -> Seq<RecordView> {
        record_views(self.results_store@)
    }
}

impl Clone for TestSearchResults {
    /// A collection of the same records in the same order.
    fn clone(&self) -> (copy: TestSearchResults)
        ensures
            copy@ == self@,
    {
        let mut list: Vec<TestSearchResult> = Vec::new();
        let mut i: usize = 0;
        while i < self.results_store.len()
            invariant
                i <= self.results_store@.len(),
                record_views(list@) == record_views(self.results_store@).subrange(0, i as int),
            decreases self.results_store@.len() - i,
        {
            let ghost before = list@;
            list.push(self.results_store[i].clone());
            assert(record_views(list@) == record_views(before).push(list@.last()@));
            i += 1;
        }
        TestSearchResults { results_store: list }
    }
}

impl TestSearchResults {
    /// An empty collection.
    pub fn new() -> (r: TestSearchResults)
        ensures
            r@ == Seq::<RecordView>::empty(),
    {
        TestSearchResults { results_store: Vec::new() }
    }

    /// A collection of the given records, in their order.
    pub fn from_records(list: Vec<TestSearchResult>) -> (r: TestSearchResults)
        ensures
            r@ == record_views(list@),
    {
        TestSearchResults { results_store: list }
    }

    /// Appends one record; the records stored before keep their places.
    pub fn store_result(&mut self, search_result: TestSearchResult)
        ensures
            final(self)@ == old(self)@.push(search_result@),
    {
        self.results_store.push(search_result);
    }

    /// Appends a batch of records behind those stored before, in the
    /// batch's order.
    pub fn store_batch(&mut self, batch: TestSearchResults)
        ensures
            final(self)@ == old(self)@ + batch@,
    {
        let mut list = batch.consume_results();
        self.results_store.append(&mut list);
    }

    /// Direct access to the backing list. Whatever the caller leaves in the
    /// list is what the collection holds afterwards.
    pub fn get_mut(&mut self) -> (list: &mut Vec<TestSearchResult>)
        ensures
            record_views(list@) == old(self)@,
            final(self)@ == record_views(final(list)@),
    {
        &mut self.results_store
    }

    /// Whether at least one record is stored.
    pub fn has_results(&self) -> (b: bool)
        ensures
            b == (self@.len() > 0),
    {
        self.results_store.len() > 0
    }

    /// The number of records stored.
    pub fn len(&self) -> (n: usize)
        ensures
            n == self@.len(),
    {
        self.results_store.len()
    }

    /// Gives up the collection and hands out its records in stored order.
    pub fn consume_results(self) -> (list: Vec<TestSearchResult>)
        ensures
            record_views(list@) == self@,
    {
        self.results_store
    }
}

} // verus!

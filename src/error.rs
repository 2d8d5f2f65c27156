use vstd::prelude::*;

verus! {

/// An error met while crawling, described in words.
#[derive(Debug)]
pub struct CrawlerError {
    msg: String,
}

impl CrawlerError {
    pub closed spec fn message_view(&self) -> Seq<char> {
        self.msg@
    }

    pub fn new(msg: String) -> (r: CrawlerError)
        ensures
            r.message_view() == msg@,
    {
        CrawlerError { msg }
    }

    /// The description the error was made with.
    pub fn message(&self) -> (r: &str)
        ensures
            r@ == self.message_view(),
    {
        self.msg.as_str()
    }
}

} // verus!

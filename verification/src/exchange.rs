//! Requests and responses with their headers as named values.

use vstd::prelude::*;

verus! {

/// A request with its headers by name.
#[derive(Debug)]
pub struct HttpRequest {
    /// The method, such as `GET`.
    pub method: String,
    /// The path requested.
    pub path: String,
    /// The headers, each a name and a value.
    pub headers: Vec<(String, String)>,
    /// The body, where there is one.
    pub body: Option<String>,
}

/// A response with its headers by name. No name occurs twice.
#[derive(Debug)]
pub struct HttpResponse {
    status_code: u16,
    headers: Vec<(String, String)>,
    body: Option<String>,
}

/// The names and values of a list of headers.
pub open spec fn pairs_of(headers: Seq<(String, String)>) -> Seq<(Seq<char>, Seq<char>)> {
    Seq::new(headers.len(), |i: int| (headers[i].0@, headers[i].1@))
}

/// The headers that a list of names and values stands for: each name with
/// the value that was listed last for it.
pub open spec fn map_of(pairs: Seq<(Seq<char>, Seq<char>)>) -> Map<Seq<char>, Seq<char>>
    decreases pairs.len(),
{
    if pairs.len() == 0 {
        Map::empty()
    } else {
        map_of(pairs.drop_last()).insert(pairs.last().0, pairs.last().1)
    }
}

/// No name occurs twice in the list.
pub open spec fn names_distinct(pairs: Seq<(Seq<char>, Seq<char>)>) -> bool {
    forall|i: int, j: int|
        0 <= i < j < pairs.len() ==> (#[trigger] pairs[i]).0 != (#[trigger] pairs[j]).0
}

/// The name of the header that tells the type of a body.
pub open spec fn content_type_name() -> Seq<char> {
    "Content-Type"@
}

/// A name of the headers a list stands for is listed.
pub proof fn lemma_mapped_is_listed(pairs: Seq<(Seq<char>, Seq<char>)>, name: Seq<char>)
    requires
        map_of(pairs).dom().contains(name),
    ensures
        exists|i: int| 0 <= i < pairs.len() && (#[trigger] pairs[i]).0 == name,
    decreases pairs.len(),
{
    if pairs.len() > 0 {
        if pairs.last().0 == name {
            assert(pairs[pairs.len() - 1].0 == name);
        } else {
            lemma_mapped_is_listed(pairs.drop_last(), name);
            let i = choose|i: int|
                0 <= i < pairs.drop_last().len() && (#[trigger] pairs.drop_last()[i]).0 == name;
            assert(pairs[i].0 == name);
        }
    }
}

impl HttpResponse {
    /// The headers as names and values.
    pub closed spec fn pairs(&self) -> Seq<(Seq<char>, Seq<char>)> {
        pairs_of(self.headers@)
    }

    /// The headers by name.
    pub open spec fn header_map(&self) -> Map<Seq<char>, Seq<char>> {
        map_of(self.pairs())
    }

    /// The status code.
    pub closed spec fn status(&self) -> u16 {
        self.status_code
    }

    /// The body, where there is one.
    pub closed spec fn body_text(&self) -> Option<Seq<char>> {
        match self.body {
            Some(b) => Some(b@),
            None => None,
        }
    }

    /// No header name occurs twice.
    pub open spec fn wf(&self) -> bool {
        names_distinct(self.pairs())
    }

    /// A response with the given status, without headers and without body.
    pub fn new(status_code: u16) -> (response: HttpResponse)
        ensures
            response.wf(),
            response.status() == status_code,
            response.header_map() == Map::<Seq<char>, Seq<char>>::empty(),
            response.body_text().is_none(),
    {
        let response = HttpResponse { status_code, headers: Vec::new(), body: None };
        assert(response.pairs() =~= Seq::empty());
        response
    }

    /// The response with `body` as its body and `content_type` as its
    /// `Content-Type` header, in place of any it had. The status and the
    /// other headers stay.
    pub fn with_body(self, body: String, content_type: &str) -> (response: HttpResponse)
        requires
            self.wf(),
        ensures
            response.wf(),
            response.status() == self.status(),
            response.body_text() == Some(body@),
            response.header_map() == self.header_map().insert(
                content_type_name(),
                content_type@,
            ),
    {
        let name: String = "Content-Type".to_owned();
        let mut kept: Vec<(String, String)> = Vec::new();
        let mut i: usize = 0;
        let ghost all = self.pairs();
        assert(pairs_of(kept@) =~= Seq::empty());
        assert(all.take(0) =~= Seq::empty());
        while i < self.headers.len()
            invariant
                i <= self.headers@.len(),
                all == pairs_of(self.headers@),
                names_distinct(all),
                name@ == content_type_name(),
                names_distinct(pairs_of(kept@)),
                forall|k: int|
                    0 <= k < kept@.len() ==> (#[trigger] pairs_of(kept@)[k]).0 != name@,
                forall|k: int|
                    0 <= k < kept@.len() ==> exists|j: int|
                        0 <= j < i && (#[trigger] all[j]).0 == (#[trigger] pairs_of(kept@)[k]).0,
                map_of(pairs_of(kept@)).insert(name@, content_type@) =~= map_of(
                    all.take(i as int),
                ).insert(name@, content_type@),
            decreases self.headers@.len() - i,
        {
            let ghost before = pairs_of(kept@);
            let ghost seen = all.take(i as int);
            let ghost next = all.take(i + 1);
            proof {
                assert(next.drop_last() =~= seen);
                assert(next.last() == all[i as int]);
            }
            let same: bool = self.headers[i].0 == name;
            proof {
                assert(all[i as int].0 == self.headers@[i as int].0@);
                assert(map_of(next) == map_of(seen).insert(all[i as int].0, all[i as int].1));
            }
            if !same {
                let entry = (self.headers[i].0.clone(), self.headers[i].1.clone());
                kept.push(entry);
                proof {
                    let after = pairs_of(kept@);
                    assert(after.drop_last() =~= before);
                    assert(after.last() == all[i as int]);
                    assert(map_of(after) == map_of(before).insert(
                        all[i as int].0,
                        all[i as int].1,
                    ));
                    let key = all[i as int].0;
                    let val = all[i as int].1;
                    assert(key != name@);
                    assert(map_of(before).insert(key, val).insert(name@, content_type@)
                        =~= map_of(before).insert(name@, content_type@).insert(key, val));
                    assert(map_of(seen).insert(key, val).insert(name@, content_type@) =~= map_of(
                        seen,
                    ).insert(name@, content_type@).insert(key, val));
                    assert(map_of(after).insert(name@, content_type@) =~= map_of(next).insert(
                        name@,
                        content_type@,
                    ));
                    assert forall|a: int, b: int| 0 <= a < b < after.len() implies (
                    #[trigger] after[a]).0 != (#[trigger] after[b]).0 by {
                        if b == after.len() - 1 {
                            assert(after[a] == before[a]);
                            let j = choose|j: int|
                                0 <= j < i && (#[trigger] all[j]).0 == (#[trigger] before[a]).0;
                            assert(all[j].0 != all[i as int].0);
                        } else {
                            assert(after[a] == before[a]);
                            assert(after[b] == before[b]);
                        }
                    }
                    assert forall|k: int| 0 <= k < kept@.len() implies exists|j: int|
                        0 <= j < i + 1 && (#[trigger] all[j]).0 == (#[trigger] after[k]).0 by {
                        if k == after.len() - 1 {
                            assert(all[i as int].0 == after[k].0);
                        } else {
                            assert(after[k] == before[k]);
                            let j = choose|j: int|
                                0 <= j < i && (#[trigger] all[j]).0 == (#[trigger] before[k]).0;
                            assert(all[j].0 == after[k].0);
                        }
                    }
                    assert forall|k: int| 0 <= k < kept@.len() implies (#[trigger] after[k]).0
                        != name@ by {
                        if k < after.len() - 1 {
                            assert(after[k] == before[k]);
                        }
                    }
                }
            } else {
                proof {
                    assert(map_of(before).insert(name@, content_type@) =~= map_of(next).insert(
                        name@,
                        content_type@,
                    ));
                }
            }
            i = i + 1;
        }
        proof {
            assert(all.take(i as int) =~= all);
        }
        let ghost before = pairs_of(kept@);
        kept.push((name, content_type.to_owned()));
        let response = HttpResponse { status_code: self.status_code, headers: kept, body: Some(body) };
        proof {
            let after = response.pairs();
            assert(after.drop_last() =~= before);
            assert(after.last() == (content_type_name(), content_type@));
            assert forall|a: int, b: int| 0 <= a < b < after.len() implies (#[trigger] after[a]).0
                != (#[trigger] after[b]).0 by {
                assert(after[a] == before[a]);
                if b < after.len() - 1 {
                    assert(after[b] == before[b]);
                }
            }
        }
        response
    }

    /// The status code.
    pub fn status_code(&self) -> (code: u16)
        ensures
            code == self.status(),
    {
        self.status_code
    }

    /// The body, where there is one.
    pub fn body(&self) -> (body: Option<&String>)
        ensures
            match body {
                Some(b) => self.body_text() == Some(b@),
                None => self.body_text().is_none(),
            },
    {
        self.body.as_ref()
    }

    /// The value of the header of the given name, where there is one.
    pub fn header(&self, name: &str) -> (value: Option<&String>)
        requires
            self.wf(),
        ensures
            match value {
                Some(v) => self.header_map().dom().contains(name@) && self.header_map()[name@]
                    == v@,
                None => !self.header_map().dom().contains(name@),
            },
    {
        let wanted: String = name.to_owned();
        let ghost all = self.pairs();
        let mut i: usize = 0;
        while i < self.headers.len()
            invariant
                i <= self.headers@.len(),
                all == pairs_of(self.headers@),
                names_distinct(all),
                wanted@ == name@,
                forall|k: int| 0 <= k < i ==> (#[trigger] all[k]).0 != name@,
            decreases self.headers@.len() - i,
        {
            if self.headers[i].0 == wanted {
                proof {
                    lemma_distinct_lookup(all, i as int);
                }
                return Some(&self.headers[i].1);
            }
            i = i + 1;
        }
        proof {
            if map_of(all).dom().contains(name@) {
                lemma_mapped_is_listed(all, name@);
            }
        }
        None
    }
}

/// Where no name occurs twice, each name stands for the value listed with
/// it.
pub proof fn lemma_distinct_lookup(pairs: Seq<(Seq<char>, Seq<char>)>, i: int)
    requires
        names_distinct(pairs),
        0 <= i < pairs.len(),
    ensures
        map_of(pairs).dom().contains(pairs[i].0),
        map_of(pairs)[pairs[i].0] == pairs[i].1,
    decreases pairs.len(),
{
    if i < pairs.len() - 1 {
        let front = pairs.drop_last();
        assert forall|a: int, b: int| 0 <= a < b < front.len() implies (#[trigger] front[a]).0 != (
        #[trigger] front[b]).0 by {
            assert(front[a] == pairs[a]);
            assert(front[b] == pairs[b]);
        }
        lemma_distinct_lookup(front, i);
        assert(pairs[i].0 != pairs[pairs.len() - 1].0);
    }
}

} // verus!

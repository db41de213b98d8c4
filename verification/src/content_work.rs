//! The content store: each piece of content under a one-byte id, and for each
//! community (0 standing for the global feed) the ids submitted to it.

use vstd::prelude::*;
use crate::keymap::{KeyMap, MapKey};
use crate::user_profiles::copy_bytes;
use crate::text::{address_text, address_to_string, bool_text, decimal, push_bool, push_decimal};
use crate::word::{Address, Env};

verus! {

pub struct Content {
    pub content_id: u8,
    pub author: Address,
    pub sub_data: String,
    pub content_data: String,
    /// 0 = Global, > 0 = Community ID
    pub community_id: u8,
    pub verified: bool,
    pub timestamp: u32,
}

pub struct ContentView {
    pub content_id: u8,
    pub author: Address,
    pub sub_data: Seq<char>,
    pub content_data: Seq<char>,
    pub community_id: u8,
    pub verified: bool,
    pub timestamp: u32,
}

impl View for Content {
    type V = ContentView;

    open spec fn view(&self) -> ContentView {
        ContentView {
            content_id: self.content_id,
            author: self.author,
            sub_data: self.sub_data@,
            content_data: self.content_data@,
            community_id: self.community_id,
            verified: self.verified,
            timestamp: self.timestamp,
        }
    }
}

/// The record of an id under which nothing was submitted.
pub open spec fn blank_content() -> ContentView {
    ContentView {
        content_id: 0,
        author: Address::spec_zero(),
        sub_data: Seq::empty(),
        content_data: Seq::empty(),
        community_id: 0,
        verified: false,
        timestamp: 0,
    }
}

fn blank_content_exec() -> (r: Content)
    ensures
        r@ == blank_content(),
{
    Content {
        content_id: 0,
        author: Address::zero(),
        sub_data: String::new(),
        content_data: String::new(),
        community_id: 0,
        verified: false,
        timestamp: 0,
    }
}

/// A piece of content as JSON text.
pub open spec fn content_json(content_id: u8, c: ContentView) -> Seq<char> {
    "{\"content_id\":"@ + decimal(content_id as nat) + ",\"author\":\""@ + address_text(c.author)
        + "\",\"sub_data\":\""@ + c.sub_data + "\",\"content\":\""@ + c.content_data
        + "\",\"community_id\":"@ + decimal(c.community_id as nat) + ",\"verified\":"@ + bool_text(
        c.verified,
    ) + ",\"timestamp\":"@ + decimal(c.timestamp as nat) + "}"@
}

/// A piece of content, as listed in a community's feed, as JSON text.
pub open spec fn listing_json(content_id: u8, c: ContentView) -> Seq<char> {
    "{\"content_id\":"@ + decimal(content_id as nat) + ",\"author\":\""@ + address_text(c.author)
        + "\",\"sub_data\":\""@ + c.sub_data + "\",\"verified\":"@ + bool_text(c.verified)
        + ",\"timestamp\":"@ + decimal(c.timestamp as nat) + "}"@
}

pub struct ContentStateView {
    /// Every id's content; ids never written hold `blank_content()`.
    pub contents: Map<u8, ContentView>,
    /// Every community's list of content ids, oldest first.
    pub community_contents: Map<u8, Seq<u8>>,
}

/// The content contract's storage.
pub struct ContentState {
    contents: KeyMap<u8, Content>,
    community_contents: KeyMap<u8, Vec<u8>>,
}

impl View for ContentState {
    type V = ContentStateView;

    closed spec fn view(&self) -> ContentStateView {
        ContentStateView {
            contents: Map::new(
                |i: u8| true,
                |i: u8|
                    if self.contents@.dom().contains(i) {
                        self.contents@[i]@
                    } else {
                        blank_content()
                    },
            ),
            community_contents: Map::new(
                |i: u8| true,
                |i: u8|
                    if self.community_contents@.dom().contains(i) {
                        self.community_contents@[i]@
                    } else {
                        Seq::empty()
                    },
            ),
        }
    }
}

impl ContentState {
    pub closed spec fn wf(&self) -> bool {
        self.contents.wf() && self.community_contents.wf()
    }

    /// No content.
    pub fn new() -> (r: Self)
        ensures
            r.wf(),
            r@.contents == Map::new(|i: u8| true, |i: u8| blank_content()),
            r@.community_contents == Map::new(|i: u8| true, |i: u8| Seq::<u8>::empty()),
    {
        let r = ContentState { contents: KeyMap::new(), community_contents: KeyMap::new() };
        assert(r@.contents =~= Map::new(|i: u8| true, |i: u8| blank_content()));
        assert(r@.community_contents =~= Map::new(|i: u8| true, |i: u8| Seq::<u8>::empty()));
        r
    }

    /// Stores content `content_id` (replacing what was stored under it),
    /// unverified and stamped with the block time, and appends its id to the
    /// list of community `community_id`.
    pub fn submit_content(
        &mut self,
        env: &Env,
        author: Address,
        sub_data: String,
        content_data: String,
        community_id: u8,
        content_id: u8,
    )
        requires
            old(self).wf(),
            env.timestamp <= u32::MAX,
        ensures
            final(self).wf(),
            final(self)@ == (ContentStateView {
                contents: old(self)@.contents.insert(
                    content_id,
                    ContentView {
                        content_id,
                        author,
                        sub_data: sub_data@,
                        content_data: content_data@,
                        community_id,
                        verified: false,
                        timestamp: env.timestamp as u32,
                    },
                ),
                community_contents: old(self)@.community_contents.insert(
                    community_id,
                    old(self)@.community_contents[community_id].push(content_id),
                ),
            }),
    {
        let ghost pre = self@;
        let new_content = Content {
            content_id,
            author,
            sub_data,
            content_data,
            community_id,
            verified: false,
            timestamp: env.timestamp as u32,
        };
        let ghost cv = new_content@;
        self.contents.insert(content_id, new_content);
        let community_key = if community_id > 0 {
            community_id
        } else {
            0
        };
        let mut content_list = match self.community_contents.take(&community_key) {
            Some(l) => l,
            None => Vec::new(),
        };
        content_list.push(content_id);
        let ghost lv = content_list@;
        self.community_contents.insert(community_key, content_list);
        assert(self@.contents =~= pre.contents.insert(content_id, cv));
        assert(self@.community_contents =~= pre.community_contents.insert(community_id, lv));
    }

    /// Marks content `content_id` verified.
    pub fn verify_content(&mut self, content_id: u8)
        requires
            old(self).wf(),
        ensures
            final(self).wf(),
            final(self)@ == (ContentStateView {
                contents: old(self)@.contents.insert(
                    content_id,
                    ContentView { verified: true, ..old(self)@.contents[content_id] },
                ),
                ..old(self)@
            }),
    {
        let ghost pre = self@;
        let mut content_x = match self.contents.take(&content_id) {
            Some(c) => c,
            None => blank_content_exec(),
        };
        content_x.verified = true;
        let ghost cv = content_x@;
        self.contents.insert(content_id, content_x);
        assert(self@.contents =~= pre.contents.insert(content_id, cv));
    }

    /// Content `content_id` as JSON text.
    pub fn get_content(&self, content_id: u8) -> (r: String)
        requires
            self.wf(),
        ensures
            r@ == content_json(content_id, self@.contents[content_id]),
    {
        let mut s = String::new();
        s.append("{\"content_id\":");
        push_decimal(&mut s, content_id as u64);
        s.append(",\"author\":\"");
        match self.contents.get(&content_id) {
            Some(c) => {
                let author = address_to_string(c.author);
                s.append(author.as_str());
                s.append("\",\"sub_data\":\"");
                s.append(c.sub_data.as_str());
                s.append("\",\"content\":\"");
                s.append(c.content_data.as_str());
                s.append("\",\"community_id\":");
                push_decimal(&mut s, c.community_id as u64);
                s.append(",\"verified\":");
                push_bool(&mut s, c.verified);
                s.append(",\"timestamp\":");
                push_decimal(&mut s, c.timestamp as u64);
            },
            None => {
                let author = address_to_string(Address::zero());
                s.append(author.as_str());
                s.append("\",\"sub_data\":\"");
                s.append("\",\"content\":\"");
                s.append("\",\"community_id\":");
                push_decimal(&mut s, 0);
                s.append(",\"verified\":");
                push_bool(&mut s, false);
                s.append(",\"timestamp\":");
                push_decimal(&mut s, 0);
            },
        }
        s.append("}");
        assert(s@ =~= content_json(content_id, self@.contents[content_id]));
        s
    }

    fn listing(&self, content_id: u8) -> (r: String)
        requires
            self.wf(),
        ensures
            r@ == listing_json(content_id, self@.contents[content_id]),
    {
        let mut s = String::new();
        s.append("{\"content_id\":");
        push_decimal(&mut s, content_id as u64);
        s.append(",\"author\":\"");
        match self.contents.get(&content_id) {
            Some(c) => {
                let author = address_to_string(c.author);
                s.append(author.as_str());
                s.append("\",\"sub_data\":\"");
                s.append(c.sub_data.as_str());
                s.append("\",\"verified\":");
                push_bool(&mut s, c.verified);
                s.append(",\"timestamp\":");
                push_decimal(&mut s, c.timestamp as u64);
            },
            None => {
                let author = address_to_string(Address::zero());
                s.append(author.as_str());
                s.append("\",\"sub_data\":\"");
                s.append("\",\"verified\":");
                push_bool(&mut s, false);
                s.append(",\"timestamp\":");
                push_decimal(&mut s, 0);
            },
        }
        s.append("}");
        assert(s@ =~= listing_json(content_id, self@.contents[content_id]));
        s
    }

    /// The feed of community `community_id` (0 for the global feed), oldest
    /// first, each entry as JSON text.
    pub fn get_content_by_community(&self, community_id: u8) -> (r: Vec<String>)
        requires
            self.wf(),
        ensures
            r@.len() == self@.community_contents[community_id].len(),
            forall|i: int|
                0 <= i < r@.len() ==> #[trigger] r@[i]@ == listing_json(
                    self@.community_contents[community_id][i],
                    self@.contents[self@.community_contents[community_id][i]],
                ),
    {
        let community_key = if community_id > 0 {
            community_id
        } else {
            0
        };
        let ids = self.content_ids(community_key);
        let mut info: Vec<String> = Vec::new();
        let mut i: usize = 0;
        while i < ids.len()
            invariant
                self.wf(),
                ids@ == self@.community_contents[community_id],
                i <= ids@.len(),
                info@.len() == i,
                forall|j: int|
                    0 <= j < i ==> #[trigger] info@[j]@ == listing_json(ids@[j], self@.contents[ids@[j]]),
            decreases ids@.len() - i,
        {
            info.push(self.listing(ids[i]));
            i = i + 1;
        }
        info
    }

    /// The ids submitted to community `community_id`, oldest first.
    pub fn content_ids(&self, community_id: u8) -> (r: Vec<u8>)
        requires
            self.wf(),
        ensures
            r@ == self@.community_contents[community_id],
    {
        match self.community_contents.get(&community_id) {
            Some(l) => copy_bytes(l),
            None => Vec::new(),
        }
    }
}

} // verus!

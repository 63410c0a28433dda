//! Caches the images and buffers a render graph created, so that the next frame can reuse them.
use vstd::prelude::*;

use crate::buffer::{Buffer, BufferDesc};
use crate::image::{Image, ImageDesc};

verus! {

/// Images and buffers a render graph created and no longer uses, grouped by description.
///
/// Each description has at most one group; the group is a stack: the last resource stored is
/// the first one handed out.
pub struct TransientResourceCache {
    images: Vec<(ImageDesc, Vec<Image>)>,
    buffers: Vec<(BufferDesc, Vec<Buffer>)>,
}

/// The cached resources of the group of `key` in `groups`, or none.
pub open spec fn spec_group<K, V>(groups: Seq<(K, Vec<V>)>, key: K) -> Seq<V> {
    if exists|i: int| 0 <= i < groups.len() && groups[i].0 == key {
        groups[choose|i: int| 0 <= i < groups.len() && groups[i].0 == key].1@
    } else {
        Seq::empty()
    }
}

/// No two groups have the same description.
pub open spec fn spec_keys_distinct<K, V>(groups: Seq<(K, Vec<V>)>) -> bool {
    forall|i: int, j: int|
        0 <= i < groups.len() && 0 <= j < groups.len() && i != j ==> groups[i].0 != groups[j].0
}

proof fn lemma_group_at<K, V>(groups: Seq<(K, Vec<V>)>, i: int)
    requires
        spec_keys_distinct(groups),
        0 <= i < groups.len(),
    ensures
        spec_group(groups, groups[i].0) == groups[i].1@,
{
    let j = choose|j: int| 0 <= j < groups.len() && groups[j].0 == groups[i].0;
    assert(j == i);
}

/// All the values of all the groups, in one vector.
fn flatten_groups<K, V>(groups: Vec<(K, Vec<V>)>) -> (values: Vec<V>)
    ensures
        forall|v: V|
            values@.contains(v) <==> exists|j: int| 0 <= j < groups@.len() && (#[trigger] groups@[j]).1@.contains(v),
{
    let ghost orig = groups@;
    let mut values: Vec<V> = Vec::new();
    let mut groups = groups;
    while groups.len() > 0
        invariant
            groups@.len() <= orig.len(),
            forall|j: int| 0 <= j < groups@.len() ==> groups@[j] == orig[j],
            forall|v: V|
                values@.contains(v) <==> exists|j: int|
                    groups@.len() <= j < orig.len() && (#[trigger] orig[j]).1@.contains(v),
        decreases groups@.len(),
    {
        let ghost before = values@;
        let ghost n = groups@.len() - 1;
        let (_, mut group) = groups.pop().unwrap();
        let ghost g = group@;
        assert(g == orig[n].1@);
        values.append(&mut group);
        proof {
            assert(values@ == before + g);
            assert forall|v: V| values@.contains(v) <==> exists|j: int|
                groups@.len() <= j < orig.len() && (#[trigger] orig[j]).1@.contains(v) by {
                if values@.contains(v) {
                    let k = choose|k: int| 0 <= k < values@.len() && values@[k] == v;
                    if k < before.len() {
                        assert(before[k] == v);
                        assert(before.contains(v));
                    } else {
                        assert(g[k - before.len()] == v);
                        assert(orig[n].1@.contains(v));
                    }
                }
                if exists|j: int| groups@.len() <= j < orig.len() && (#[trigger] orig[j]).1@.contains(v) {
                    let j = choose|j: int| groups@.len() <= j < orig.len() && (#[trigger] orig[j]).1@.contains(v);
                    if j == n {
                        let k = choose|k: int| 0 <= k < g.len() && g[k] == v;
                        assert(values@[before.len() + k] == v);
                    } else {
                        assert(before.contains(v));
                        let k = choose|k: int| 0 <= k < before.len() && before[k] == v;
                        assert(values@[k] == v);
                    }
                }
            }
        }
    }
    values
}

impl TransientResourceCache {
    /// The cached images of description `desc`, oldest first.
    pub closed spec fn spec_images(&self, desc: ImageDesc) -> Seq<Image> {
        spec_group(self.images@, desc)
    }

    /// The cached buffers of description `desc`, oldest first.
    pub closed spec fn spec_buffers(&self, desc: BufferDesc) -> Seq<Buffer> {
        spec_group(self.buffers@, desc)
    }

    /// The cache's invariant: one group per description, and every resource in the group of
    /// its own description.
    pub closed spec fn spec_wf(&self) -> bool {
        &&& spec_keys_distinct(self.images@)
        &&& spec_keys_distinct(self.buffers@)
        &&& forall|i: int, k: int|
            0 <= i < self.images@.len() && 0 <= k < self.images@[i].1@.len() ==> (
            #[trigger] self.images@[i].1@[k]).desc == self.images@[i].0
        &&& forall|i: int, k: int|
            0 <= i < self.buffers@.len() && 0 <= k < self.buffers@[i].1@.len() ==> (
            #[trigger] self.buffers@[i].1@[k]).desc == self.buffers@[i].0
    }

    /// An empty cache.
    pub fn new() -> (cache: Self)
        ensures
            cache.spec_wf(),
            forall|d: ImageDesc| cache.spec_images(d).len() == 0,
            forall|d: BufferDesc| cache.spec_buffers(d).len() == 0,
    {
        Self { images: Vec::new(), buffers: Vec::new() }
    }

    fn find_image_group(&self, desc: &ImageDesc) -> (idx: Option<usize>)
        ensures
            match idx {
                Some(i) => i < self.images@.len() && self.images@[i as int].0 == *desc,
                None => forall|i: int| 0 <= i < self.images@.len() ==> self.images@[i].0 != *desc,
            },
    {
        let mut i: usize = 0;
        while i < self.images.len()
            invariant
                i <= self.images@.len(),
                forall|j: int| 0 <= j < i ==> self.images@[j].0 != *desc,
            decreases self.images@.len() - i,
        {
            if self.images[i].0 == *desc {
                return Some(i);
            }
            i = i + 1;
        }
        None
    }

    fn find_buffer_group(&self, desc: &BufferDesc) -> (idx: Option<usize>)
        ensures
            match idx {
                Some(i) => i < self.buffers@.len() && self.buffers@[i as int].0 == *desc,
                None => forall|i: int| 0 <= i < self.buffers@.len() ==> self.buffers@[i].0 != *desc,
            },
    {
        let mut i: usize = 0;
        while i < self.buffers.len()
            invariant
                i <= self.buffers@.len(),
                forall|j: int| 0 <= j < i ==> self.buffers@[j].0 != *desc,
            decreases self.buffers@.len() - i,
        {
            if self.buffers[i].0 == *desc {
                return Some(i);
            }
            i = i + 1;
        }
        None
    }

    /// Takes the most recently stored buffer of description `desc`, if any.
    pub fn get_buffer(&mut self, desc: &BufferDesc) -> (buffer: Option<Buffer>)
        requires
            old(self).spec_wf(),
        ensures
            final(self).spec_wf(),
            old(self).spec_buffers(*desc).len() == 0 ==> {
                &&& buffer is None
                &&& final(self).spec_buffers(*desc) == old(self).spec_buffers(*desc)
            },
            old(self).spec_buffers(*desc).len() > 0 ==> {
                &&& buffer == Some(old(self).spec_buffers(*desc).last())
                &&& buffer->0.desc == *desc
                &&& final(self).spec_buffers(*desc) == old(self).spec_buffers(*desc).drop_last()
            },
            forall|d: BufferDesc| d != *desc ==> final(self).spec_buffers(d) == old(self).spec_buffers(d),
            forall|d: ImageDesc| final(self).spec_images(d) == old(self).spec_images(d),
    {
        match self.find_buffer_group(desc) {
            Some(i) => {
                proof {
                    lemma_group_at(self.buffers@, i as int);
                }
                let ghost before = self.buffers@;
                let buffer = self.buffers[i].1.pop();
                proof {
                    assert(self.buffers@.len() == before.len());
                    assert forall|j: int| 0 <= j < self.buffers@.len() && j != i implies self.buffers@[j]
                        == before[j] by {}
                    assert forall|j: int| 0 <= j < self.buffers@.len() implies self.buffers@[j].0
                        == before[j].0 by {}
                    lemma_group_at(self.buffers@, i as int);
                    assert forall|d: BufferDesc| d != *desc implies spec_group(self.buffers@, d)
                        == spec_group(before, d) by {
                        if exists|j: int| 0 <= j < before.len() && before[j].0 == d {
                            let j = choose|j: int| 0 <= j < before.len() && before[j].0 == d;
                            lemma_group_at(before, j);
                            lemma_group_at(self.buffers@, j);
                        }
                    }
                }
                buffer
            },
            None => {
                proof {
                    assert(spec_group(self.buffers@, *desc).len() == 0);
                }
                None
            },
        }
    }

    /// Takes the most recently stored image of description `desc`, if any.
    pub fn get_image(&mut self, desc: &ImageDesc) -> (image: Option<Image>)
        requires
            old(self).spec_wf(),
        ensures
            final(self).spec_wf(),
            old(self).spec_images(*desc).len() == 0 ==> {
                &&& image is None
                &&& final(self).spec_images(*desc) == old(self).spec_images(*desc)
            },
            old(self).spec_images(*desc).len() > 0 ==> {
                &&& image == Some(old(self).spec_images(*desc).last())
                &&& image->0.desc == *desc
                &&& final(self).spec_images(*desc) == old(self).spec_images(*desc).drop_last()
            },
            forall|d: ImageDesc| d != *desc ==> final(self).spec_images(d) == old(self).spec_images(d),
            forall|d: BufferDesc| final(self).spec_buffers(d) == old(self).spec_buffers(d),
    {
        match self.find_image_group(desc) {
            Some(i) => {
                proof {
                    lemma_group_at(self.images@, i as int);
                }
                let ghost before = self.images@;
                let image = self.images[i].1.pop();
                proof {
                    assert forall|j: int| 0 <= j < self.images@.len() && j != i implies self.images@[j]
                        == before[j] by {}
                    assert forall|j: int| 0 <= j < self.images@.len() implies self.images@[j].0
                        == before[j].0 by {}
                    lemma_group_at(self.images@, i as int);
                    assert forall|d: ImageDesc| d != *desc implies spec_group(self.images@, d)
                        == spec_group(before, d) by {
                        if exists|j: int| 0 <= j < before.len() && before[j].0 == d {
                            let j = choose|j: int| 0 <= j < before.len() && before[j].0 == d;
                            lemma_group_at(before, j);
                            lemma_group_at(self.images@, j);
                        }
                    }
                }
                image
            },
            None => {
                proof {
                    assert(spec_group(self.images@, *desc).len() == 0);
                }
                None
            },
        }
    }

    /// Stores an image for later reuse, in the group of its description.
    pub fn store_image(&mut self, image: Image)
        requires
            old(self).spec_wf(),
        ensures
            final(self).spec_wf(),
            final(self).spec_images(image.desc) == old(self).spec_images(image.desc).push(image),
            forall|d: ImageDesc| d != image.desc ==> final(self).spec_images(d) == old(self).spec_images(d),
            forall|d: BufferDesc| final(self).spec_buffers(d) == old(self).spec_buffers(d),
    {
        let ghost before = self.images@;
        let ghost desc = image.desc;
        match self.find_image_group(&image.desc) {
            Some(i) => {
                proof {
                    lemma_group_at(before, i as int);
                }
                self.images[i].1.push(image);
                proof {
                    assert forall|j: int| 0 <= j < self.images@.len() && j != i implies self.images@[j]
                        == before[j] by {}
                    assert forall|j: int| 0 <= j < self.images@.len() implies self.images@[j].0
                        == before[j].0 by {}
                    lemma_group_at(self.images@, i as int);
                    assert forall|d: ImageDesc| d != desc implies spec_group(self.images@, d)
                        == spec_group(before, d) by {
                        if exists|j: int| 0 <= j < before.len() && before[j].0 == d {
                            let j = choose|j: int| 0 <= j < before.len() && before[j].0 == d;
                            lemma_group_at(before, j);
                            lemma_group_at(self.images@, j);
                        }
                    }
                }
            },
            None => {
                let key = image.desc;
                let mut group = Vec::new();
                group.push(image);
                self.images.push((key, group));
                proof {
                    let n = before.len() as int;
                    assert(self.images@[n].0 == desc);
                    lemma_group_at(self.images@, n);
                    assert(spec_group(before, desc).len() == 0);
                    assert(self.images@[n].1@ =~= Seq::<Image>::empty().push(self.images@[n].1@[0]));
                    assert forall|d: ImageDesc| d != desc implies spec_group(self.images@, d)
                        == spec_group(before, d) by {
                        if exists|j: int| 0 <= j < before.len() && before[j].0 == d {
                            let j = choose|j: int| 0 <= j < before.len() && before[j].0 == d;
                            lemma_group_at(before, j);
                            lemma_group_at(self.images@, j);
                        } else {
                            if exists|j: int| 0 <= j < self.images@.len() && self.images@[j].0 == d {
                                let j = choose|j: int| 0 <= j < self.images@.len() && self.images@[j].0 == d;
                                assert(j < n);
                            }
                        }
                    }
                }
            },
        }
    }

    /// Stores a buffer for later reuse, in the group of its description.
    pub fn store_buffer(&mut self, buffer: Buffer)
        requires
            old(self).spec_wf(),
        ensures
            final(self).spec_wf(),
            final(self).spec_buffers(buffer.desc) == old(self).spec_buffers(buffer.desc).push(buffer),
            forall|d: BufferDesc| d != buffer.desc ==> final(self).spec_buffers(d) == old(self).spec_buffers(d),
            forall|d: ImageDesc| final(self).spec_images(d) == old(self).spec_images(d),
    {
        let ghost before = self.buffers@;
        let ghost desc = buffer.desc;
        match self.find_buffer_group(&buffer.desc) {
            Some(i) => {
                proof {
                    lemma_group_at(before, i as int);
                }
                self.buffers[i].1.push(buffer);
                proof {
                    assert forall|j: int| 0 <= j < self.buffers@.len() && j != i implies self.buffers@[j]
                        == before[j] by {}
                    assert forall|j: int| 0 <= j < self.buffers@.len() implies self.buffers@[j].0
                        == before[j].0 by {}
                    lemma_group_at(self.buffers@, i as int);
                    assert forall|d: BufferDesc| d != desc implies spec_group(self.buffers@, d)
                        == spec_group(before, d) by {
                        if exists|j: int| 0 <= j < before.len() && before[j].0 == d {
                            let j = choose|j: int| 0 <= j < before.len() && before[j].0 == d;
                            lemma_group_at(before, j);
                            lemma_group_at(self.buffers@, j);
                        }
                    }
                }
            },
            None => {
                let key = buffer.desc;
                let mut group = Vec::new();
                group.push(buffer);
                self.buffers.push((key, group));
                proof {
                    let n = before.len() as int;
                    lemma_group_at(self.buffers@, n);
                    assert(spec_group(before, desc).len() == 0);
                    assert(self.buffers@[n].1@ =~= Seq::<Buffer>::empty().push(self.buffers@[n].1@[0]));
                    assert forall|d: BufferDesc| d != desc implies spec_group(self.buffers@, d)
                        == spec_group(before, d) by {
                        if exists|j: int| 0 <= j < before.len() && before[j].0 == d {
                            let j = choose|j: int| 0 <= j < before.len() && before[j].0 == d;
                            lemma_group_at(before, j);
                            lemma_group_at(self.buffers@, j);
                        } else {
                            if exists|j: int| 0 <= j < self.buffers@.len() && self.buffers@[j].0 == d {
                                let j = choose|j: int| 0 <= j < self.buffers@.len() && self.buffers@[j].0 == d;
                                assert(j < n);
                            }
                        }
                    }
                }
            },
        }
    }

    /// Empties the cache: hands out every cached image and buffer, to be destroyed.
    pub fn clean(self) -> (res: (Vec<Image>, Vec<Buffer>))
        requires
            self.spec_wf(),
        ensures
            forall|img: Image| res.0@.contains(img) <==> self.spec_images(img.desc).contains(img),
            forall|buf: Buffer| res.1@.contains(buf) <==> self.spec_buffers(buf.desc).contains(buf),
    {
        let ghost cache = self;
        let images = flatten_groups(self.images);
        let buffers = flatten_groups(self.buffers);
        proof {
            assert forall|img: Image| images@.contains(img) implies cache.spec_images(img.desc).contains(img) by {
                let j = choose|j: int| 0 <= j < cache.images@.len() && cache.images@[j].1@.contains(img);
                let k = choose|k: int| 0 <= k < cache.images@[j].1@.len() && cache.images@[j].1@[k] == img;
                assert(cache.images@[j].1@[k].desc == cache.images@[j].0);
                lemma_group_at(cache.images@, j);
            }
            assert forall|img: Image| cache.spec_images(img.desc).contains(img) implies images@.contains(img) by {
                let j = choose|j: int| 0 <= j < cache.images@.len() && cache.images@[j].0 == img.desc;
                lemma_group_at(cache.images@, j);
            }
            assert forall|buf: Buffer| buffers@.contains(buf) implies cache.spec_buffers(buf.desc).contains(buf) by {
                let j = choose|j: int| 0 <= j < cache.buffers@.len() && cache.buffers@[j].1@.contains(buf);
                let k = choose|k: int| 0 <= k < cache.buffers@[j].1@.len() && cache.buffers@[j].1@[k] == buf;
                assert(cache.buffers@[j].1@[k].desc == cache.buffers@[j].0);
                lemma_group_at(cache.buffers@, j);
            }
            assert forall|buf: Buffer| cache.spec_buffers(buf.desc).contains(buf) implies buffers@.contains(buf) by {
                let j = choose|j: int| 0 <= j < cache.buffers@.len() && cache.buffers@[j].0 == buf.desc;
                lemma_group_at(cache.buffers@, j);
            }
        }
        (images, buffers)
    }
}

} // verus!

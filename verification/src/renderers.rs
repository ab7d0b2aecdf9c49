//! The bookkeeping behind instanced rendering: which transforms a model has,
//! how many of them the graphics card holds, and what has to be done to bring
//! the two together.

use vstd::prelude::*;

verus! {

/// What has to be done to the transform buffer on the graphics card.
#[derive(Clone, Copy, Debug, PartialEq, Eq)]
pub enum BufferUpdate {
    /// The number of transforms has changed: a buffer of the new size has to
    /// be made and filled.
    Reallocate,
    /// The number of transforms is the same: the buffer that is there is
    /// written over from its start.
    Overwrite,
}

/// A set of transforms for a 3D model. The transform itself is left open: the
/// bookkeeping never looks inside one. Counts are kept in 32 bits, as the
/// graphics card takes them, so a list of 2^32 entries or more is counted
/// modulo 2^32.
pub struct Model<T> {
    /// The number of indices in the index buffer.
    pub index_count: u32,
    /// The list of instances of the model that will be visible. Every
    /// transform will be a new copy of the model without duplicating memory
    /// use.
    pub transforms: Vec<T>,
    /// When a transform is modified then this is set to `true`. Whenever the model is
    /// next rendered it will rebuild the buffer and set this to `false`.
    pub transforms_outdated: bool,
    /// The count of the transforms on the buffer. This has to be included because
    /// `transforms.len()` might be different to the previous size and then the buffer would need
    /// to be reallocated.
    pub transform_count: u32,
}

impl<T> Model<T> {
    /// The update that brings a buffer of `count` transforms up to a list of
    /// `len` transforms.
    pub open spec fn update_for(len: nat, count: u32) -> BufferUpdate {
        if len as u32 != count {
            BufferUpdate::Reallocate
        } else {
            BufferUpdate::Overwrite
        }
    }

    /// Make a model from the described features.
    pub fn new(indices: &[u16], transforms: Vec<T>) -> (model: Model<T>)
        ensures
            model.index_count == indices@.len() as u32,
            model.transforms@ == transforms@,
            model.transform_count == transforms@.len() as u32,
            !model.transforms_outdated,
    {
        let index_count: u32 = indices.len() as u32;
        let transform_count: u32 = transforms.len() as u32;
        Model { index_count, transforms, transforms_outdated: false, transform_count }
    }

    /// Put values of the transforms from the `Vec` on the struct to the
    /// actual buffer for rendering: says what has to be done to the buffer,
    /// and records that it was done.
    pub fn update_transforms(&mut self) -> (update: BufferUpdate)
        ensures
            update == Self::update_for(old(self).transforms@.len(), old(self).transform_count),
            final(self).transform_count == old(self).transforms@.len() as u32,
            !final(self).transforms_outdated,
            final(self).transforms@ == old(self).transforms@,
            final(self).index_count == old(self).index_count,
    {
        let len: u32 = self.transforms.len() as u32;
        let update = if len != self.transform_count {
            BufferUpdate::Reallocate
        } else {
            BufferUpdate::Overwrite
        };
        self.transform_count = len;
        self.transforms_outdated = false;
        update
    }

    /// What a renderer does with the model once a frame: where the
    /// transforms are outdated they are put on the buffer, as
    /// [`Model::update_transforms`] does, and where they are not, nothing
    /// happens.
    pub fn update(&mut self) -> (update: Option<BufferUpdate>)
        ensures
            update == (if old(self).transforms_outdated {
                Some(Self::update_for(old(self).transforms@.len(), old(self).transform_count))
            } else {
                None
            }),
            final(self).transform_count == (if old(self).transforms_outdated {
                old(self).transforms@.len() as u32
            } else {
                old(self).transform_count
            }),
            !final(self).transforms_outdated,
            final(self).transforms@ == old(self).transforms@,
            final(self).index_count == old(self).index_count,
    {
        if self.transforms_outdated {
            Some(self.update_transforms())
        } else {
            None
        }
    }

    /// Modified the value of the transform and marks it as outdated.
    pub fn set_transform(&mut self, index: usize, transform: T)
        requires
            index < old(self).transforms@.len(),
        ensures
            final(self).transforms@ == old(self).transforms@.update(index as int, transform),
            final(self).transforms_outdated,
            final(self).transform_count == old(self).transform_count,
            final(self).index_count == old(self).index_count,
    {
        self.transforms.set(index, transform);
        self.transforms_outdated = true;
    }

    /// Modified the value of the transform, marks it as outdated, then returns the model.
    pub fn with_transform(self, index: usize, transform: T) -> (model: Model<T>)
        requires
            index < self.transforms@.len(),
        ensures
            model.transforms@ == self.transforms@.update(index as int, transform),
            model.transforms_outdated,
            model.transform_count == self.transform_count,
            model.index_count == self.index_count,
    {
        let mut model = self;
        model.set_transform(index, transform);
        model
    }

    /// Modified the value of the transforms and marks it as outdated.
    pub fn set_transforms(&mut self, transforms: Vec<T>)
        ensures
            final(self).transforms@ == transforms@,
            final(self).transforms_outdated,
            final(self).transform_count == old(self).transform_count,
            final(self).index_count == old(self).index_count,
    {
        self.transforms = transforms;
        self.transforms_outdated = true;
    }

    /// Modified the value of the transforms, marks it as outdated, then returns the model.
    pub fn with_transforms(self, transforms: Vec<T>) -> (model: Model<T>)
        ensures
            model.transforms@ == transforms@,
            model.transforms_outdated,
            model.transform_count == self.transform_count,
            model.index_count == self.index_count,
    {
        let mut model = self;
        model.set_transforms(transforms);
        model
    }

    /// Calls the function `modify` on the list of transforms and marks it as outdated.
    pub fn modify_transforms<F: FnOnce(&mut [T])>(&mut self, modify: F)
        requires
            forall|list: &mut [T]| list@ == old(self).transforms@ ==> call_requires(modify, (list,)),
        ensures
            final(self).transforms_outdated,
            final(self).transform_count == old(self).transform_count,
            final(self).index_count == old(self).index_count,
            exists|list: &mut [T]|
                {
                    &&& list@ == old(self).transforms@
                    &&& final(list)@ == final(self).transforms@
                    &&& #[trigger] call_ensures(modify, (list,), ())
                },
    {
        modify(self.transforms.as_mut_slice());
        self.transforms_outdated = true;
    }

    /// Calls the function `modify` on the list of transforms, marks it as outdated, then returns
    /// the model.
    pub fn with_modify_transforms<F: FnOnce(&mut [T])>(self, modify: F) -> (model: Model<T>)
        requires
            forall|list: &mut [T]| list@ == self.transforms@ ==> call_requires(modify, (list,)),
        ensures
            model.transforms_outdated,
            model.transform_count == self.transform_count,
            model.index_count == self.index_count,
            exists|list: &mut [T]|
                {
                    &&& list@ == self.transforms@
                    &&& final(list)@ == model.transforms@
                    &&& #[trigger] call_ensures(modify, (list,), ())
                },
    {
        let mut model = self;
        model.modify_transforms(modify);
        model
    }
}

/// Once a model's transforms were put on the buffer, putting them there again
/// without a change in between never calls for a new buffer.
pub proof fn lemma_update_settles<T>(len: nat, count: u32)
    ensures
        Model::<T>::update_for(len, len as u32) == BufferUpdate::Overwrite,
        Model::<T>::update_for(len, count) == BufferUpdate::Overwrite <==> count == len as u32,
{
}


} // verus!

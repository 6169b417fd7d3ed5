//! One page: the button records of every address.
use vstd::prelude::*;

use super::button::Button;
use super::{IMAGE_SIZE, ROW_SIZE};

verus! {

/// The buttons of one page, in address order.
pub struct Page {
    pub buttons: Vec<Button>,
}

impl Page {
    /// Whether the page is made of the given function rows and image blocks,
    /// button by button.
    pub open spec fn holds(&self, rows: Seq<[u8; ROW_SIZE]>, images: Seq<[u8; IMAGE_SIZE]>) -> bool {
        &&& self.buttons@.len() == rows.len()
        &&& forall|i: int|
            0 <= i < rows.len() ==> {
                &&& (#[trigger] self.buttons@[i]).raw_data == rows[i]
                &&& self.buttons@[i].raw_image == images[i]
            }
    }

    /// Puts the function rows and the image blocks of a page together, one
    /// button per address.
    pub fn from_buffers(rows: &Vec<[u8; ROW_SIZE]>, images: &Vec<[u8; IMAGE_SIZE]>) -> (page: Page)
        requires
            rows@.len() == images@.len(),
        ensures
            page.holds(rows@, images@),
    {
        let mut buttons: Vec<Button> = Vec::new();
        let mut idx: usize = 0;
        while idx < rows.len()
            invariant
                idx <= rows@.len(),
                rows@.len() == images@.len(),
                buttons@.len() == idx,
                forall|i: int|
                    0 <= i < idx ==> {
                        &&& (#[trigger] buttons@[i]).raw_data == rows@[i]
                        &&& buttons@[i].raw_image == images@[i]
                    },
            decreases rows@.len() - idx,
        {
            buttons.push(Button { raw_data: rows[idx], raw_image: images[idx] });
            idx = idx + 1;
        }
        Page { buttons }
    }
}

} // verus!

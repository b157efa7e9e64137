//! Media files and their playback schedules, as the appliance keeps them.
use vstd::prelude::*;

verus! {

/// An audio file known to the library.
#[derive(Clone, Debug)]
pub struct MediaFile {
    pub id: u32,
    pub name: String,
    pub path: String,
}

/// Whether a schedule is currently registered with the job runner.
#[derive(PartialEq, Eq, Structural, Clone, Copy, Debug)]
pub enum Activity {
    Active,
    Inactive,
}

/// A cron expression that plays one media file.
#[derive(Clone, Debug)]
pub struct Schedule {
    pub id: u32,
    pub file_id: u32,
    pub schedule: String,
    pub activity: Activity,
}

impl Schedule {
    /// A new schedule starts inactive.
    pub fn new(id: u32, file_id: u32, schedule: String) -> (r: Schedule)
        ensures
            r == (Schedule { id, file_id, schedule, activity: Activity::Inactive }),
    {
        Schedule { id, file_id, schedule, activity: Activity::Inactive }
    }
}

impl MediaFile {
    pub fn new(id: u32, name: String, path: String) -> (r: MediaFile)
        ensures
            r == (MediaFile { id, name, path }),
    {
        MediaFile { id, name, path }
    }
}


/// The player's state as the status endpoint reports it.
#[derive(PartialEq, Eq, Structural, Clone, Copy, Debug)]
pub enum Status {
    Init,
    Disconnected,
    Connected,
    Running,
    Idle,
    Paused,
}

/// Hands out ids one after another, each one more than the last.
#[derive(Debug)]
pub struct IdGenerator {
    id: u32,
}

/// The id after `last`: one more, wrapping around at the end of the range.
pub open spec fn next_id(last: u32) -> u32 {
    if last == u32::MAX {
        0
    } else {
        (last + 1) as u32
    }
}

impl View for IdGenerator {
    type V = u32;

    /// The id handed out last (or the start value).
    closed spec fn view(&self) -> u32 {
        self.id
    }
}

impl IdGenerator {
    pub fn new(start: u32) -> (r: IdGenerator)
        ensures
            r@ == start,
    {
        IdGenerator { id: start }
    }

    pub fn next(&mut self) -> (r: u32)
        ensures
            r == next_id(old(self)@),
            final(self)@ == r,
    {
        self.id = self.id.wrapping_add(1);
        self.id
    }
}


/// The largest of `ids`, or 0 for none.
pub open spec fn max_id(ids: Seq<u32>) -> u32
    decreases ids.len(),
{
    if ids.len() == 0 {
        0
    } else {
        let m = max_id(ids.drop_last());
        if ids.last() > m {
            ids.last()
        } else {
            m
        }
    }
}

/// `i` is the first position of `files` whose id is `id`.
pub open spec fn first_media(files: Seq<MediaFile>, id: u32, i: int) -> bool {
    &&& 0 <= i < files.len()
    &&& files[i].id == id
    &&& forall|j: int| 0 <= j < i ==> files[j].id != id
}

/// `i` is the first position of `schedules` whose id is `id`.
pub open spec fn first_schedule(schedules: Seq<Schedule>, id: u32, i: int) -> bool {
    &&& 0 <= i < schedules.len()
    &&& schedules[i].id == id
    &&& forall|j: int| 0 <= j < i ==> schedules[j].id != id
}

/// The library: media files, their schedules, the player's status, and the
/// id generators for new files and schedules.
#[derive(Debug)]
pub struct State {
    pub files: Vec<MediaFile>,
    pub schedules: Vec<Schedule>,
    pub status: Status,
    pub file_id_gen: IdGenerator,
    pub schedule_id_gen: IdGenerator,
}

impl Default for State {
    fn default() -> (r: State)
        ensures
            r.files@.len() == 0,
            r.schedules@.len() == 0,
            r.status == Status::Init,
            r.file_id_gen@ == 0,
            r.schedule_id_gen@ == 0,
    {
        State {
            files: Vec::new(),
            schedules: Vec::new(),
            status: Status::Init,
            file_id_gen: IdGenerator::new(0),
            schedule_id_gen: IdGenerator::new(0),
        }
    }
}

fn max_media_id(files: &Vec<MediaFile>) -> (r: u32)
    ensures
        r == max_id(files@.map_values(|f: MediaFile| f.id)),
{
    let ghost ids = files@.map_values(|f: MediaFile| f.id);
    let mut m: u32 = 0;
    let mut i: usize = 0;
    while i < files.len()
        invariant
            0 <= i <= files.len(),
            ids == files@.map_values(|f: MediaFile| f.id),
            m == max_id(ids.take(i as int)),
        decreases files.len() - i,
    {
        assert(ids.take(i + 1).drop_last() =~= ids.take(i as int));
        if files[i].id > m {
            m = files[i].id;
        }
        i = i + 1;
    }
    assert(ids.take(i as int) =~= ids);
    m
}

fn max_schedule_id(schedules: &Vec<Schedule>) -> (r: u32)
    ensures
        r == max_id(schedules@.map_values(|s: Schedule| s.id)),
{
    let ghost ids = schedules@.map_values(|s: Schedule| s.id);
    let mut m: u32 = 0;
    let mut i: usize = 0;
    while i < schedules.len()
        invariant
            0 <= i <= schedules.len(),
            ids == schedules@.map_values(|s: Schedule| s.id),
            m == max_id(ids.take(i as int)),
        decreases schedules.len() - i,
    {
        assert(ids.take(i + 1).drop_last() =~= ids.take(i as int));
        if schedules[i].id > m {
            m = schedules[i].id;
        }
        i = i + 1;
    }
    assert(ids.take(i as int) =~= ids);
    m
}

impl State {
    /// The library as read back from storage: new ids continue after the
    /// largest stored one, and the player starts idle.
    pub fn load(files: Vec<MediaFile>, schedules: Vec<Schedule>) -> (r: State)
        ensures
            r.files@ == files@,
            r.schedules@ == schedules@,
            r.status == Status::Idle,
            r.file_id_gen@ == max_id(files@.map_values(|f: MediaFile| f.id)),
            r.schedule_id_gen@ == max_id(schedules@.map_values(|s: Schedule| s.id)),
    {
        let file_start = max_media_id(&files);
        let schedule_start = max_schedule_id(&schedules);
        State {
            file_id_gen: IdGenerator::new(file_start),
            schedule_id_gen: IdGenerator::new(schedule_start),
            files,
            schedules,
            status: Status::Idle,
        }
    }

    /// The first media file with id `id`.
    pub fn get_media(&self, id: u32) -> (r: Option<&MediaFile>)
        ensures
            r matches Some(f) ==> exists|i: int| first_media(self.files@, id, i) && *f == self.files@[i],
            r is None ==> forall|i: int| 0 <= i < self.files@.len() ==> self.files@[i].id != id,
    {
        let mut i: usize = 0;
        while i < self.files.len()
            invariant
                0 <= i <= self.files.len(),
                forall|j: int| 0 <= j < i ==> self.files@[j].id != id,
            decreases self.files.len() - i,
        {
            if self.files[i].id == id {
                assert(first_media(self.files@, id, i as int));
                return Some(&self.files[i]);
            }
            i = i + 1;
        }
        None
    }

    /// The first schedule with id `id`.
    pub fn get_schedule(&self, id: u32) -> (r: Option<&Schedule>)
        ensures
            r matches Some(s) ==> exists|i: int| first_schedule(self.schedules@, id, i) && *s == self.schedules@[i],
            r is None ==> forall|i: int| 0 <= i < self.schedules@.len() ==> self.schedules@[i].id != id,
    {
        let mut i: usize = 0;
        while i < self.schedules.len()
            invariant
                0 <= i <= self.schedules.len(),
                forall|j: int| 0 <= j < i ==> self.schedules@[j].id != id,
            decreases self.schedules.len() - i,
        {
            if self.schedules[i].id == id {
                assert(first_schedule(self.schedules@, id, i as int));
                return Some(&self.schedules[i]);
            }
            i = i + 1;
        }
        None
    }
}


impl State {
    /// The first schedule with id `id`, to change in place.
    pub fn get_mut_schedule(&mut self, id: u32) -> (r: Option<&mut Schedule>)
        ensures
            r is None ==> *final(self) == *old(self),
            r is None ==> forall|i: int|
                0 <= i < old(self).schedules@.len() ==> old(self).schedules@[i].id != id,
            r matches Some(s) ==> exists|i: int|
                {
                    &&& first_schedule(old(self).schedules@, id, i)
                    &&& *s == old(self).schedules@[i]
                    &&& final(self).schedules@ == old(self).schedules@.update(i, *final(s))
                },
            final(self).files == old(self).files,
            final(self).status == old(self).status,
            final(self).file_id_gen == old(self).file_id_gen,
            final(self).schedule_id_gen == old(self).schedule_id_gen,
    {
        let mut i: usize = 0;
        while i < self.schedules.len()
            invariant
                *self == *old(self),
                0 <= i <= self.schedules.len(),
                forall|j: int| 0 <= j < i ==> self.schedules@[j].id != id,
            decreases self.schedules.len() - i,
        {
            if self.schedules[i].id == id {
                assert(first_schedule(self.schedules@, id, i as int));
                return Some(&mut self.schedules[i]);
            }
            i = i + 1;
        }
        None
    }
}


impl State {
    /// Add a media file under the next file id.
    pub fn add_media(&mut self, name: String, path: String)
        ensures
            final(self).file_id_gen@ == next_id(old(self).file_id_gen@),
            final(self).files@ == old(self).files@.push(
                MediaFile { id: final(self).file_id_gen@, name, path },
            ),
            final(self).schedules == old(self).schedules,
            final(self).status == old(self).status,
            final(self).schedule_id_gen == old(self).schedule_id_gen,
    {
        let id = self.file_id_gen.next();
        self.files.push(MediaFile::new(id, name, path));
    }

    /// Drop every media file with id `id`.
    pub fn remove_media(&mut self, id: u32)
        ensures
            final(self).files@ == old(self).files@.filter(|f: MediaFile| f.id != id),
            final(self).schedules == old(self).schedules,
            final(self).status == old(self).status,
            final(self).file_id_gen == old(self).file_id_gen,
            final(self).schedule_id_gen == old(self).schedule_id_gen,
    {
        let ghost before = self.files@;
        let ghost keep = |f: MediaFile| f.id != id;
        let mut i: usize = 0;
        let ghost mut j: int = 0;
        while i < self.files.len()
            invariant
                0 <= j <= before.len(),
                i == before.take(j).filter(keep).len(),
                self.files@ == before.take(j).filter(keep) + before.skip(j),
                keep == (|f: MediaFile| f.id != id),
                self.schedules == old(self).schedules,
                self.status == old(self).status,
                self.file_id_gen == old(self).file_id_gen,
                self.schedule_id_gen == old(self).schedule_id_gen,
            decreases self.files.len() - i,
        {
            proof {
                assert(self.files@[i as int] == before[j]);
                assert(before.take(j + 1).drop_last() =~= before.take(j));
                assert(before.take(j + 1).last() == before[j]);
                reveal(Seq::filter);
            }
            if self.files[i].id == id {
                self.files.remove(i);
            } else {
                i = i + 1;
            }
            proof {
                j = j + 1;
                assert(self.files@ =~= before.take(j).filter(keep) + before.skip(j));
            }
        }
        assert(before.take(j) =~= before);
    }

    /// Add a schedule for file `file_id` under the next schedule id; it
    /// starts inactive.
    pub fn add_schedule(&mut self, file_id: u32, schedule: String)
        ensures
            final(self).schedule_id_gen@ == next_id(old(self).schedule_id_gen@),
            final(self).schedules@ == old(self).schedules@.push(
                Schedule {
                    id: final(self).schedule_id_gen@,
                    file_id,
                    schedule,
                    activity: Activity::Inactive,
                },
            ),
            final(self).files == old(self).files,
            final(self).status == old(self).status,
            final(self).file_id_gen == old(self).file_id_gen,
    {
        let id = self.schedule_id_gen.next();
        self.schedules.push(Schedule::new(id, file_id, schedule));
    }

    /// Drop every schedule with id `id`.
    pub fn remove_schedule(&mut self, id: u32)
        ensures
            final(self).schedules@ == old(self).schedules@.filter(|s: Schedule| s.id != id),
            final(self).files == old(self).files,
            final(self).status == old(self).status,
            final(self).file_id_gen == old(self).file_id_gen,
            final(self).schedule_id_gen == old(self).schedule_id_gen,
    {
        let ghost before = self.schedules@;
        let ghost keep = |s: Schedule| s.id != id;
        let mut i: usize = 0;
        let ghost mut j: int = 0;
        while i < self.schedules.len()
            invariant
                0 <= j <= before.len(),
                i == before.take(j).filter(keep).len(),
                self.schedules@ == before.take(j).filter(keep) + before.skip(j),
                keep == (|s: Schedule| s.id != id),
                self.files == old(self).files,
                self.status == old(self).status,
                self.file_id_gen == old(self).file_id_gen,
                self.schedule_id_gen == old(self).schedule_id_gen,
            decreases self.schedules.len() - i,
        {
            proof {
                assert(self.schedules@[i as int] == before[j]);
                assert(before.take(j + 1).drop_last() =~= before.take(j));
                assert(before.take(j + 1).last() == before[j]);
                reveal(Seq::filter);
            }
            if self.schedules[i].id == id {
                self.schedules.remove(i);
            } else {
                i = i + 1;
            }
            proof {
                j = j + 1;
                assert(self.schedules@ =~= before.take(j).filter(keep) + before.skip(j));
            }
        }
        assert(before.take(j) =~= before);
    }
}


impl State {
    /// Point schedule `id` (which must exist) at `file_id` and `schedule`;
    /// returns whether anything changed, which is when it needs saving.
    pub fn edit_schedule(&mut self, id: u32, file_id: u32, schedule: String) -> (changed: bool)
        requires
            exists|i: int| 0 <= i < old(self).schedules@.len() && old(self).schedules@[i].id == id,
        ensures
            exists|i: int|
                {
                    let s = old(self).schedules@[i];
                    &&& #[trigger] first_schedule(old(self).schedules@, id, i)
                    &&& changed == !(s.file_id == file_id && s.schedule@ == schedule@)
                    &&& changed ==> final(self).schedules@ == old(self).schedules@.update(
                        i,
                        Schedule { file_id, schedule, ..s },
                    )
                    &&& !changed ==> final(self).schedules@ == old(self).schedules@
                },
            final(self).files == old(self).files,
            final(self).status == old(self).status,
            final(self).file_id_gen == old(self).file_id_gen,
            final(self).schedule_id_gen == old(self).schedule_id_gen,
    {
        match self.get_mut_schedule(id) {
            Some(sched) => {
                if file_id == sched.file_id && schedule == sched.schedule {
                    return false;
                }
                sched.file_id = file_id;
                sched.schedule = schedule;
                true
            },
            None => false,
        }
    }
}

/// Schedule `s` plays file `file_id` and is active.
pub open spec fn plays_actively(s: Schedule, file_id: u32) -> bool {
    s.file_id == file_id && s.activity == Activity::Active
}

impl State {
    /// Mark inactive every active schedule of file `file_id` (a file about to
    /// go away); returns their ids, in order, for the job runner to cancel.
    pub fn deactivate_file_schedules(&mut self, file_id: u32) -> (r: Vec<u32>)
        ensures
            r@ == old(self).schedules@.filter(|s: Schedule| plays_actively(s, file_id)).map_values(
                |s: Schedule| s.id,
            ),
            final(self).schedules@.len() == old(self).schedules@.len(),
            forall|i: int|
                0 <= i < old(self).schedules@.len() ==> #[trigger] final(self).schedules@[i] == if plays_actively(
                    old(self).schedules@[i],
                    file_id,
                ) {
                    Schedule { activity: Activity::Inactive, ..old(self).schedules@[i] }
                } else {
                    old(self).schedules@[i]
                },
            final(self).files == old(self).files,
            final(self).status == old(self).status,
            final(self).file_id_gen == old(self).file_id_gen,
            final(self).schedule_id_gen == old(self).schedule_id_gen,
    {
        let ghost before = self.schedules@;
        let ghost pick = |s: Schedule| plays_actively(s, file_id);
        let ghost id_of = |s: Schedule| s.id;
        let mut ids: Vec<u32> = Vec::new();
        let mut i: usize = 0;
        while i < self.schedules.len()
            invariant
                0 <= i <= self.schedules.len(),
                self.schedules@.len() == before.len(),
                pick == (|s: Schedule| plays_actively(s, file_id)),
                id_of == (|s: Schedule| s.id),
                ids@ == before.take(i as int).filter(pick).map_values(id_of),
                forall|j: int| i <= j < before.len() ==> self.schedules@[j] == before[j],
                forall|j: int|
                    0 <= j < i ==> #[trigger] self.schedules@[j] == if plays_actively(before[j], file_id) {
                        Schedule { activity: Activity::Inactive, ..before[j] }
                    } else {
                        before[j]
                    },
                self.files == old(self).files,
                self.status == old(self).status,
                self.file_id_gen == old(self).file_id_gen,
                self.schedule_id_gen == old(self).schedule_id_gen,
            decreases self.schedules.len() - i,
        {
            proof {
                assert(before.take(i + 1).drop_last() =~= before.take(i as int));
                assert(before.take(i + 1).last() == before[i as int]);
                reveal(Seq::filter);
            }
            if self.schedules[i].file_id == file_id && self.schedules[i].activity == Activity::Active {
                ids.push(self.schedules[i].id);
                let s = &mut self.schedules[i];
                s.activity = Activity::Inactive;
                proof {
                    assert(before.take(i as int).filter(pick).push(before[i as int]).map_values(id_of)
                        =~= before.take(i as int).filter(pick).map_values(id_of).push(before[i as int].id));
                }
            }
            i = i + 1;
        }
        assert(before.take(i as int) =~= before);
        ids
    }
}

} // verus!
